//! The configuration of a server whose functions name their handlers.
use vstd::prelude::*;

verus! {

/// The configuration of a server.
#[derive(Debug)]
pub struct ServerConfig {
    pub config_path: Option<String>,
    pub functions_dir: String,
    pub cron_data_path: Option<String>,
    pub logger: Option<LoggerConfig>,
}

/// Where log messages go.
#[derive(Debug)]
pub enum LoggerConfig {
    Stdout,
    Noop,
    RabbitMq { uri: String, exchange: String },
}

/// The configuration of a function.
#[derive(Debug)]
pub struct FunctionConfig {
    pub config_path: Option<String>,
    pub code: Option<FunctionCodeConfig>,
    pub triggers: Option<FunctionTriggersConfig>,
    pub bindings: Option<FunctionBindingsConfig>,
}

/// The code of a function: a file, or the code itself.
#[derive(Debug)]
pub enum FunctionCodeConfig {
    Path(String),
    Inline(Vec<u8>),
}

/// What sets off a function.
#[derive(Debug)]
pub struct FunctionTriggersConfig {
    pub http: Option<Vec<FunctionHttpEndpointConfig>>,
    pub cron: Option<Vec<FunctionCronTriggerConfig>>,
}

/// The handler of requests.
#[derive(Debug)]
pub struct FunctionHttpEndpointConfig {
    pub handler: String,
}

/// A schedule and its handler.
#[derive(Debug)]
pub struct FunctionCronTriggerConfig {
    pub id: String,
    pub handler: String,
    pub schedule: String,
}

/// What a function is bound to.
#[derive(Debug)]
pub struct FunctionBindingsConfig {
    pub sql: Option<Vec<SqlBindingConfig>>,
    pub rpc: Option<Vec<RpcBindingConfig>>,
}

/// A database.
#[derive(Debug)]
pub struct SqlBindingConfig {
    pub id: String,
    pub path: String,
}

/// A function that is called.
#[derive(Debug)]
pub struct RpcBindingConfig {
    pub id: String,
    pub function: String,
}

impl FunctionConfig {
    /// The configuration at a path, with nothing in it.
    pub fn new(config_path: String) -> (config: Self)
        ensures
            config == (FunctionConfig {
                config_path: Some(config_path),
                code: None,
                triggers: None,
                bindings: None,
            }),
    {
        FunctionConfig { config_path: Some(config_path), code: None, triggers: None, bindings: None }
    }

    pub fn with_code_inline(self, code: Vec<u8>) -> (config: Self)
        ensures
            config == (FunctionConfig { code: Some(FunctionCodeConfig::Inline(code)), ..self }),
    {
        let mut config = self;
        config.code = Some(FunctionCodeConfig::Inline(code));
        config
    }
}

} // verus!
