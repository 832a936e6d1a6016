//! The configuration of a server and of its functions.
use vstd::prelude::*;

use crate::text::owned;

verus! {

/// The elements of an optional list; none where there is no list.
pub open spec fn listed<T>(list: Option<Vec<T>>) -> Seq<T> {
    match list {
        Some(elements) => elements@,
        None => Seq::empty(),
    }
}

fn pushed<T>(list: Option<Vec<T>>, element: T) -> (longer: Option<Vec<T>>)
    ensures
        longer is Some,
        listed(longer) == listed(list).push(element),
{
    let mut elements = match list {
        Some(elements) => elements,
        None => Vec::new(),
    };
    elements.push(element);
    Some(elements)
}

/// The configuration of a server.
#[derive(Debug)]
pub struct ServerConfig {
    pub config_path: Option<String>,
    pub server: HttpServerConfig,
    pub functions_dir: String,
    pub cron_data_path: Option<String>,
    pub blob: Option<BlobConfig>,
    pub logger: Option<LoggerConfig>,
    pub introspection: Option<IntrospectionConfig>,
}

/// The configuration of the HTTP side of a server.
#[derive(Clone, Copy, Debug, PartialEq, Eq, Structural)]
pub struct HttpServerConfig {
    pub port: ServerPort,
}

impl Default for HttpServerConfig {
    fn default() -> (config: Self)
        ensures
            config.port.value == 8080,
    {
        HttpServerConfig { port: ServerPort::default() }
    }
}

/// The port of a server.
#[derive(Clone, Copy, Debug, PartialEq, Eq, Structural)]
pub struct ServerPort {
    pub value: u16,
}

impl Default for ServerPort {
    fn default() -> (port: Self)
        ensures
            port.value == 8080,
    {
        ServerPort { value: 8080 }
    }
}

/// Where blobs are kept.
#[derive(Debug)]
pub struct BlobConfig {
    pub path: String,
}

impl Default for BlobConfig {
    fn default() -> (config: Self)
        ensures
            config.path@ == "/var/lib/fx/blob"@,
    {
        BlobConfig { path: owned("/var/lib/fx/blob") }
    }
}

/// Where log messages go. A custom logger is one of the program around the server, by its number.
#[derive(Debug)]
pub enum LoggerConfig {
    Stdout,
    Noop,
    HttpLogger { endpoint: String },
    Custom(u64),
}

/// Whether the server shows what it runs.
#[derive(Clone, Copy, Debug, PartialEq, Eq, Structural)]
pub struct IntrospectionConfig {
    pub enabled: bool,
}

/// The configuration of a function.
#[derive(Debug)]
pub struct FunctionConfig {
    pub config_path: Option<String>,
    pub code: Option<FunctionCodeConfig>,
    pub env: Option<Vec<EnvVariableConfig>>,
    pub logger: Option<LoggerConfig>,
    pub triggers: Option<FunctionTriggersConfig>,
    pub bindings: Option<FunctionBindingsConfig>,
}

/// Where the code of a function is.
#[derive(Debug)]
pub enum FunctionCodeConfig {
    Path(String),
    Inline(Vec<u8>),
}

/// An environment variable.
#[derive(Debug)]
pub struct EnvVariableConfig {
    pub id: String,
    pub source: EnvValueSource,
}

/// Where the value of an environment variable comes from.
#[derive(Debug)]
pub enum EnvValueSource {
    Value(String),
    File(String),
}

/// What a function is triggered by.
#[derive(Debug)]
pub struct FunctionTriggersConfig {
    pub http: Option<Vec<FunctionHttpEndpointConfig>>,
    pub cron: Option<Vec<FunctionCronTriggerConfig>>,
}

/// That a function is triggered by requests, to one host or to any.
#[derive(Debug)]
pub struct FunctionHttpEndpointConfig {
    pub host: Option<String>,
}

/// That a function is triggered by a schedule.
#[derive(Debug)]
pub struct FunctionCronTriggerConfig {
    pub id: String,
    pub schedule: String,
}

/// That a function is triggered by the messages of a queue.
#[derive(Debug)]
pub struct FunctionRabbitmqTriggerConfig {
    pub handler: String,
    pub queue: String,
}

/// What a function is bound to.
#[derive(Debug)]
pub struct FunctionBindingsConfig {
    pub sql: Option<Vec<SqlBindingConfig>>,
    pub blob: Option<Vec<BlobBindingConfig>>,
    pub kv: Option<Vec<KvBindingConfig>>,
    pub functions: Option<Vec<FunctionBindingConfig>>,
}

/// A binding to a database.
#[derive(Debug)]
pub struct SqlBindingConfig {
    pub id: String,
    pub path: String,
    pub busy_timeout_ms: Option<u64>,
}

/// A binding to a bucket of blobs.
#[derive(Debug)]
pub struct BlobBindingConfig {
    pub id: String,
    pub bucket: String,
}

/// A binding to a key-value namespace.
#[derive(Debug)]
pub struct KvBindingConfig {
    pub id: String,
    pub namespace: String,
}

/// A binding to another function.
#[derive(Debug)]
pub struct FunctionBindingConfig {
    pub id: String,
    pub function_id: String,
    pub host: Option<String>,
}

/// The triggers of a configuration; empty ones where it has none.
pub open spec fn triggers_or_empty(config: FunctionConfig) -> FunctionTriggersConfig {
    match config.triggers {
        Some(triggers) => triggers,
        None => FunctionTriggersConfig { http: None, cron: None },
    }
}

/// The bindings of a configuration; empty ones where it has none.
pub open spec fn bindings_or_empty(config: FunctionConfig) -> FunctionBindingsConfig {
    match config.bindings {
        Some(bindings) => bindings,
        None => FunctionBindingsConfig { sql: None, blob: None, kv: None, functions: None },
    }
}

impl FunctionConfig {
    pub fn new(config_path: String) -> (config: Self)
        ensures
            config == (FunctionConfig {
                config_path: Some(config_path),
                code: None,
                env: None,
                logger: None,
                triggers: None,
                bindings: None,
            }),
    {
        FunctionConfig {
            config_path: Some(config_path),
            code: None,
            env: None,
            logger: None,
            triggers: None,
            bindings: None,
        }
    }

    pub fn with_code_inline(self, code: Vec<u8>) -> (config: Self)
        ensures
            config == (FunctionConfig { code: Some(FunctionCodeConfig::Inline(code)), ..self }),
    {
        FunctionConfig { code: Some(FunctionCodeConfig::Inline(code)), ..self }
    }

    pub fn with_env(self, id: String, value: String) -> (config: Self)
        ensures
            config.env is Some,
            listed(config.env) == listed(self.env).push(
                (EnvVariableConfig { id, source: EnvValueSource::Value(value) }),
            ),
            config == (FunctionConfig { env: config.env, ..self }),
    {
        let variable = EnvVariableConfig { id, source: EnvValueSource::Value(value) };
        FunctionConfig { env: pushed(self.env, variable), ..self }
    }

    pub fn with_trigger_http(self, host: Option<String>) -> (config: Self)
        ensures
            config.triggers is Some,
            listed(config.triggers->0.http) == seq![(FunctionHttpEndpointConfig { host })],
            config.triggers->0.cron == triggers_or_empty(self).cron,
            config == (FunctionConfig { triggers: config.triggers, ..self }),
    {
        let triggers = match self.triggers {
            Some(triggers) => triggers,
            None => FunctionTriggersConfig::new(),
        };
        FunctionConfig { triggers: Some(triggers.with_http(host)), ..self }
    }

    pub fn with_trigger_cron(self, id: String, schedule: String) -> (config: Self)
        ensures
            config.triggers is Some,
            listed(config.triggers->0.cron) == seq![(FunctionCronTriggerConfig { id, schedule })],
            config.triggers->0.http == triggers_or_empty(self).http,
            config == (FunctionConfig { triggers: config.triggers, ..self }),
    {
        let triggers = match self.triggers {
            Some(triggers) => triggers,
            None => FunctionTriggersConfig::new(),
        };
        FunctionConfig { triggers: Some(triggers.with_cron(id, schedule)), ..self }
    }

    pub fn with_binding_blob(self, id: String, bucket: String) -> (config: Self)
        ensures
            config.bindings is Some,
            config.bindings->0 == (FunctionBindingsConfig {
                blob: config.bindings->0.blob,
                ..bindings_or_empty(self)
            }),
            listed(config.bindings->0.blob) == listed(bindings_or_empty(self).blob).push(
                (BlobBindingConfig { id, bucket }),
            ),
            config == (FunctionConfig { bindings: config.bindings, ..self }),
    {
        let bindings = match self.bindings {
            Some(bindings) => bindings,
            None => FunctionBindingsConfig::new(),
        };
        FunctionConfig { bindings: Some(bindings.with_blob(id, bucket)), ..self }
    }

    pub fn with_binding_sql(self, id: String, path: String) -> (config: Self)
        ensures
            config.bindings is Some,
            config.bindings->0 == (FunctionBindingsConfig {
                sql: config.bindings->0.sql,
                ..bindings_or_empty(self)
            }),
            listed(config.bindings->0.sql) == listed(bindings_or_empty(self).sql).push(
                (SqlBindingConfig { id, path, busy_timeout_ms: None }),
            ),
            config == (FunctionConfig { bindings: config.bindings, ..self }),
    {
        self.with_binding_sql_config(SqlBindingConfig { id, path, busy_timeout_ms: None })
    }

    pub fn with_binding_sql_config(self, sql: SqlBindingConfig) -> (config: Self)
        ensures
            config.bindings is Some,
            config.bindings->0 == (FunctionBindingsConfig {
                sql: config.bindings->0.sql,
                ..bindings_or_empty(self)
            }),
            listed(config.bindings->0.sql) == listed(bindings_or_empty(self).sql).push(sql),
            config == (FunctionConfig { bindings: config.bindings, ..self }),
    {
        let bindings = match self.bindings {
            Some(bindings) => bindings,
            None => FunctionBindingsConfig::new(),
        };
        FunctionConfig { bindings: Some(bindings.with_sql(sql)), ..self }
    }

    pub fn with_binding_kv(self, id: String, namespace: String) -> (config: Self)
        ensures
            config.bindings is Some,
            config.bindings->0 == (FunctionBindingsConfig {
                kv: config.bindings->0.kv,
                ..bindings_or_empty(self)
            }),
            listed(config.bindings->0.kv) == listed(bindings_or_empty(self).kv).push(
                (KvBindingConfig { id, namespace }),
            ),
            config == (FunctionConfig { bindings: config.bindings, ..self }),
    {
        let bindings = match self.bindings {
            Some(bindings) => bindings,
            None => FunctionBindingsConfig::new(),
        };
        FunctionConfig { bindings: Some(bindings.with_kv(id, namespace)), ..self }
    }

    pub fn with_binding_function(self, function: FunctionBindingConfig) -> (config: Self)
        ensures
            config.bindings is Some,
            config.bindings->0 == (FunctionBindingsConfig {
                functions: config.bindings->0.functions,
                ..bindings_or_empty(self)
            }),
            listed(config.bindings->0.functions) == listed(bindings_or_empty(self).functions).push(
                function,
            ),
            config == (FunctionConfig { bindings: config.bindings, ..self }),
    {
        let bindings = match self.bindings {
            Some(bindings) => bindings,
            None => FunctionBindingsConfig::new(),
        };
        FunctionConfig { bindings: Some(bindings.with_function(function)), ..self }
    }

    pub fn with_logger(self, logger: LoggerConfig) -> (config: Self)
        ensures
            config == (FunctionConfig { logger: Some(logger), ..self }),
    {
        FunctionConfig { logger: Some(logger), ..self }
    }
}

impl FunctionTriggersConfig {
    pub fn new() -> (triggers: Self)
        ensures
            triggers == (FunctionTriggersConfig { http: None, cron: None }),
    {
        FunctionTriggersConfig { http: None, cron: None }
    }

    /// Triggers by requests to one host, or to any, and by no others.
    pub fn with_http(self, host: Option<String>) -> (triggers: Self)
        ensures
            triggers.http is Some,
            listed(triggers.http) == seq![(FunctionHttpEndpointConfig { host })],
            triggers.cron == self.cron,
    {
        FunctionTriggersConfig { http: Some(vec![FunctionHttpEndpointConfig::new(host)]), ..self }
    }

    /// Triggers by one schedule, and by no others.
    pub fn with_cron(self, id: String, schedule: String) -> (triggers: Self)
        ensures
            triggers.cron is Some,
            listed(triggers.cron) == seq![(FunctionCronTriggerConfig { id, schedule })],
            triggers.http == self.http,
    {
        FunctionTriggersConfig {
            cron: Some(vec![FunctionCronTriggerConfig::new(id, schedule)]),
            ..self
        }
    }
}

impl FunctionHttpEndpointConfig {
    pub fn new(host: Option<String>) -> (endpoint: Self)
        ensures
            endpoint == (FunctionHttpEndpointConfig { host }),
    {
        FunctionHttpEndpointConfig { host }
    }
}

impl FunctionCronTriggerConfig {
    pub fn new(id: String, schedule: String) -> (trigger: Self)
        ensures
            trigger == (FunctionCronTriggerConfig { id, schedule }),
    {
        FunctionCronTriggerConfig { id, schedule }
    }
}

impl FunctionBindingsConfig {
    pub fn new() -> (bindings: Self)
        ensures
            bindings == (FunctionBindingsConfig {
                sql: None,
                blob: None,
                kv: None,
                functions: None,
            }),
    {
        FunctionBindingsConfig { sql: None, blob: None, kv: None, functions: None }
    }

    pub fn with_blob(self, id: String, bucket: String) -> (bindings: Self)
        ensures
            bindings == (FunctionBindingsConfig { blob: bindings.blob, ..self }),
            listed(bindings.blob) == listed(self.blob).push((BlobBindingConfig { id, bucket })),
    {
        FunctionBindingsConfig { blob: pushed(self.blob, BlobBindingConfig { id, bucket }), ..self }
    }

    pub fn with_sql(self, config: SqlBindingConfig) -> (bindings: Self)
        ensures
            bindings == (FunctionBindingsConfig { sql: bindings.sql, ..self }),
            listed(bindings.sql) == listed(self.sql).push(config),
    {
        FunctionBindingsConfig { sql: pushed(self.sql, config), ..self }
    }

    pub fn with_kv(self, id: String, namespace: String) -> (bindings: Self)
        ensures
            bindings == (FunctionBindingsConfig { kv: bindings.kv, ..self }),
            listed(bindings.kv) == listed(self.kv).push((KvBindingConfig { id, namespace })),
    {
        FunctionBindingsConfig { kv: pushed(self.kv, KvBindingConfig { id, namespace }), ..self }
    }

    pub fn with_function(self, config: FunctionBindingConfig) -> (bindings: Self)
        ensures
            bindings == (FunctionBindingsConfig { functions: bindings.functions, ..self }),
            listed(bindings.functions) == listed(self.functions).push(config),
    {
        FunctionBindingsConfig { functions: pushed(self.functions, config), ..self }
    }
}

impl SqlBindingConfig {
    pub fn new(id: String, path: String) -> (config: Self)
        ensures
            config == (SqlBindingConfig { id, path, busy_timeout_ms: None }),
    {
        SqlBindingConfig { id, path, busy_timeout_ms: None }
    }

    pub fn with_busy_timeout_ms(self, busy_timeout_ms: u64) -> (config: Self)
        ensures
            config == (SqlBindingConfig { busy_timeout_ms: Some(busy_timeout_ms), ..self }),
    {
        SqlBindingConfig { busy_timeout_ms: Some(busy_timeout_ms), ..self }
    }
}

impl FunctionBindingConfig {
    pub fn new(id: String, function_id: String, host: Option<String>) -> (config: Self)
        ensures
            config == (FunctionBindingConfig { id, function_id, host }),
    {
        FunctionBindingConfig { id, function_id, host }
    }
}

/// Another variable comes after those that were there, and everything else stays.
pub proof fn with_env_adds_one(
    config: FunctionConfig,
    id: String,
    value: String,
    made: FunctionConfig,
    i: int,
)
    requires
        call_ensures(FunctionConfig::with_env, (config, id, value), made),
    ensures
        made.env is Some,
        made.env->0@.last().id == id,
        made.env->0@.last().source == EnvValueSource::Value(value),
        config.env is None ==> made.env->0@.len() == 1,
        config.env is Some ==> made.env->0@.len() == config.env->0@.len() + 1 && (0 <= i
            < config.env->0@.len() ==> made.env->0@[i] == config.env->0@[i]),
        made.bindings == config.bindings,
        made.triggers == config.triggers,
        made.code == config.code,
        made.logger == config.logger,
        made.config_path == config.config_path,
{
    assert(listed(made.env).len() > 0);
}

/// A trigger takes the place of those of its kind that were there, and everything else stays.
pub proof fn triggers_replace_those_of_their_kind(
    config: FunctionConfig,
    host: Option<String>,
    served: FunctionConfig,
    id: String,
    schedule: String,
    scheduled: FunctionConfig,
)
    requires
        call_ensures(FunctionConfig::with_trigger_http, (config, host), served),
        call_ensures(FunctionConfig::with_trigger_cron, (config, id, schedule), scheduled),
    ensures
        served.triggers is Some,
        served.triggers->0.http is Some,
        served.triggers->0.http->0@.len() == 1,
        served.triggers->0.http->0@[0].host == host,
        served.triggers->0.cron == (match config.triggers {
            Some(triggers) => triggers.cron,
            None => None,
        }),
        scheduled.triggers is Some,
        scheduled.triggers->0.cron is Some,
        scheduled.triggers->0.cron->0@.len() == 1,
        scheduled.triggers->0.cron->0@[0].id == id,
        scheduled.triggers->0.cron->0@[0].schedule == schedule,
        scheduled.triggers->0.http == (match config.triggers {
            Some(triggers) => triggers.http,
            None => None,
        }),
        served.env == config.env && scheduled.env == config.env,
        served.bindings == config.bindings && scheduled.bindings == config.bindings,
        served.code == config.code && scheduled.code == config.code,
{
    assert(listed(served.triggers->0.http).len() == 1);
    assert(listed(scheduled.triggers->0.cron).len() == 1);
}

/// Another binding comes after those that were there, and everything else stays.
pub proof fn with_binding_kv_adds_one(
    config: FunctionConfig,
    id: String,
    namespace: String,
    made: FunctionConfig,
    i: int,
)
    requires
        call_ensures(FunctionConfig::with_binding_kv, (config, id, namespace), made),
    ensures
        made.bindings is Some,
        made.bindings->0.kv is Some,
        made.bindings->0.kv->0@.last() == (KvBindingConfig { id, namespace }),
        config.bindings is None || config.bindings->0.kv is None
            ==> made.bindings->0.kv->0@.len() == 1,
        config.bindings is Some && config.bindings->0.kv is Some
            ==> made.bindings->0.kv->0@.len() == config.bindings->0.kv->0@.len() + 1 && (0
            <= i < config.bindings->0.kv->0@.len() ==> made.bindings->0.kv->0@[i]
            == config.bindings->0.kv->0@[i]),
        made.bindings->0.sql == (match config.bindings {
            Some(bindings) => bindings.sql,
            None => None,
        }),
        made.bindings->0.blob == (match config.bindings {
            Some(bindings) => bindings.blob,
            None => None,
        }),
        made.bindings->0.functions == (match config.bindings {
            Some(bindings) => bindings.functions,
            None => None,
        }),
        made.env == config.env,
        made.triggers == config.triggers,
        made.code == config.code,
        made.logger == config.logger,
        made.config_path == config.config_path,
{
    assert(listed(made.bindings->0.kv).len() > 0);
}

/// Another binding comes after those that were there, and everything else stays.
pub proof fn with_binding_blob_adds_one(
    config: FunctionConfig,
    id: String,
    bucket: String,
    made: FunctionConfig,
    i: int,
)
    requires
        call_ensures(FunctionConfig::with_binding_blob, (config, id, bucket), made),
    ensures
        made.bindings is Some,
        made.bindings->0.blob is Some,
        made.bindings->0.blob->0@.last() == (BlobBindingConfig { id, bucket }),
        config.bindings is None || config.bindings->0.blob is None
            ==> made.bindings->0.blob->0@.len() == 1,
        config.bindings is Some && config.bindings->0.blob is Some
            ==> made.bindings->0.blob->0@.len() == config.bindings->0.blob->0@.len() + 1 && (0
            <= i < config.bindings->0.blob->0@.len() ==> made.bindings->0.blob->0@[i]
            == config.bindings->0.blob->0@[i]),
        made.bindings->0.sql == (match config.bindings {
            Some(bindings) => bindings.sql,
            None => None,
        }),
        made.bindings->0.kv == (match config.bindings {
            Some(bindings) => bindings.kv,
            None => None,
        }),
        made.bindings->0.functions == (match config.bindings {
            Some(bindings) => bindings.functions,
            None => None,
        }),
        made.env == config.env,
        made.triggers == config.triggers,
        made.code == config.code,
        made.logger == config.logger,
        made.config_path == config.config_path,
{
    assert(listed(made.bindings->0.blob).len() > 0);
}

/// Another binding comes after those that were there, and everything else stays.
pub proof fn with_binding_sql_adds_one(
    config: FunctionConfig,
    id: String,
    path: String,
    made: FunctionConfig,
    i: int,
)
    requires
        call_ensures(FunctionConfig::with_binding_sql, (config, id, path), made),
    ensures
        made.bindings is Some,
        made.bindings->0.sql is Some,
        made.bindings->0.sql->0@.last() == (SqlBindingConfig { id, path, busy_timeout_ms: None }),
        config.bindings is None || config.bindings->0.sql is None
            ==> made.bindings->0.sql->0@.len() == 1,
        config.bindings is Some && config.bindings->0.sql is Some
            ==> made.bindings->0.sql->0@.len() == config.bindings->0.sql->0@.len() + 1 && (0
            <= i < config.bindings->0.sql->0@.len() ==> made.bindings->0.sql->0@[i]
            == config.bindings->0.sql->0@[i]),
        made.bindings->0.blob == (match config.bindings {
            Some(bindings) => bindings.blob,
            None => None,
        }),
        made.bindings->0.kv == (match config.bindings {
            Some(bindings) => bindings.kv,
            None => None,
        }),
        made.bindings->0.functions == (match config.bindings {
            Some(bindings) => bindings.functions,
            None => None,
        }),
        made.env == config.env,
        made.triggers == config.triggers,
        made.code == config.code,
        made.logger == config.logger,
        made.config_path == config.config_path,
{
    assert(listed(made.bindings->0.sql).len() > 0);
}

/// Another binding comes after those that were there, and everything else stays.
pub proof fn with_binding_sql_config_adds_one(
    config: FunctionConfig,
    sql: SqlBindingConfig,
    made: FunctionConfig,
    i: int,
)
    requires
        call_ensures(FunctionConfig::with_binding_sql_config, (config, sql), made),
    ensures
        made.bindings is Some,
        made.bindings->0.sql is Some,
        made.bindings->0.sql->0@.last() == (sql),
        config.bindings is None || config.bindings->0.sql is None
            ==> made.bindings->0.sql->0@.len() == 1,
        config.bindings is Some && config.bindings->0.sql is Some
            ==> made.bindings->0.sql->0@.len() == config.bindings->0.sql->0@.len() + 1 && (0
            <= i < config.bindings->0.sql->0@.len() ==> made.bindings->0.sql->0@[i]
            == config.bindings->0.sql->0@[i]),
        made.bindings->0.blob == (match config.bindings {
            Some(bindings) => bindings.blob,
            None => None,
        }),
        made.bindings->0.kv == (match config.bindings {
            Some(bindings) => bindings.kv,
            None => None,
        }),
        made.bindings->0.functions == (match config.bindings {
            Some(bindings) => bindings.functions,
            None => None,
        }),
        made.env == config.env,
        made.triggers == config.triggers,
        made.code == config.code,
        made.logger == config.logger,
        made.config_path == config.config_path,
{
    assert(listed(made.bindings->0.sql).len() > 0);
}

/// Another binding comes after those that were there, and everything else stays.
pub proof fn with_binding_function_adds_one(
    config: FunctionConfig,
    function: FunctionBindingConfig,
    made: FunctionConfig,
    i: int,
)
    requires
        call_ensures(FunctionConfig::with_binding_function, (config, function), made),
    ensures
        made.bindings is Some,
        made.bindings->0.functions is Some,
        made.bindings->0.functions->0@.last() == (function),
        config.bindings is None || config.bindings->0.functions is None
            ==> made.bindings->0.functions->0@.len() == 1,
        config.bindings is Some && config.bindings->0.functions is Some
            ==> made.bindings->0.functions->0@.len() == config.bindings->0.functions->0@.len() + 1 && (0
            <= i < config.bindings->0.functions->0@.len() ==> made.bindings->0.functions->0@[i]
            == config.bindings->0.functions->0@[i]),
        made.bindings->0.blob == (match config.bindings {
            Some(bindings) => bindings.blob,
            None => None,
        }),
        made.bindings->0.kv == (match config.bindings {
            Some(bindings) => bindings.kv,
            None => None,
        }),
        made.bindings->0.sql == (match config.bindings {
            Some(bindings) => bindings.sql,
            None => None,
        }),
        made.env == config.env,
        made.triggers == config.triggers,
        made.code == config.code,
        made.logger == config.logger,
        made.config_path == config.config_path,
{
    assert(listed(made.bindings->0.functions).len() > 0);
}

} // verus!
