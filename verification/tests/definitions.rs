use fx_runtime::cron::{
    create_table_query, due, prev_run_query, read_prev_run_time, update_run_query, CronRunner,
    CronSchedule, CronTaskDefinition, RunRecordError, Timestamp, LAST_SECOND,
};
use fx_runtime::definition::{
    definition_from_config, DefinitionError, DefinitionProvider, FunctionDefinition, KvConfig,
    KvDefinition, RpcConfig, RpcDefinition, SqlConfig, SqlDefinition, SqlStorageDefinition,
    StoredDefinition,
};
use fx_runtime::definitions::bindings::SqlBindingConfigLocation;
use fx_runtime::definitions::config::{
    BlobConfig, EnvValueSource, EnvVariableConfig, FunctionBindingConfig, FunctionBindingsConfig,
    FunctionCodeConfig, FunctionConfig, FunctionCronTriggerConfig, FunctionTriggersConfig,
    HttpServerConfig, LoggerConfig,
    ServerConfig, ServerPort, SqlBindingConfig,
};
use fx_runtime::definitions::monitor::{
    changed_paths, cron_triggers, env_table, function_bindings, http_listeners, join_path,
    module_source, path_changed, path_to_function_id, scan_definitions, scan_entry, sql_binding,
    sql_bindings, try_cron_triggers, ChangeAction, DefinitionsMonitor, FunctionIdDetectionError,
    ModuleSource, ScanEntry,
};
use fx_runtime::effects::sql::{QueryResult, Row, SqlValue};
use fx_runtime::function::id::FunctionId;

fn s(text: &str) -> String {
    text.to_string()
}

fn at(seconds: i64) -> Timestamp {
    Timestamp { seconds, nanoseconds: 0 }
}

#[test]
fn definition_files_name_their_functions() {
    assert_eq!(path_to_function_id("hello.fx.yaml").unwrap().as_str(), "hello");
    assert_eq!(path_to_function_id("group/hello.fx.yaml").unwrap().as_str(), "group/hello");
    assert_eq!(path_to_function_id(".fx.yaml").unwrap().as_str(), "");
    for path in ["hello.yaml", "hello.fx.yml", "hello.fx.yaml.bak", "fx.yaml", ""] {
        assert_eq!(
            path_to_function_id(path).err(),
            Some(FunctionIdDetectionError::PathMissingExtension)
        );
    }
}

fn entry(readable: bool, is_file: bool, path: &str) -> ScanEntry {
    ScanEntry { readable, is_file, path: s(path) }
}

#[test]
fn a_walk_loads_the_definition_files_in_order() {
    let entries = vec![
        entry(true, false, "dir.fx.yaml"),
        entry(true, true, "b.fx.yaml"),
        entry(false, true, "lost.fx.yaml"),
        entry(true, true, "readme.md"),
        entry(true, true, "a.fx.yaml"),
    ];
    let load = scan_definitions(&entries);
    let names: Vec<&str> = load.iter().map(|id| id.as_str()).collect();
    assert_eq!(names, vec!["b", "a"]);
    assert!(scan_entry(&entries[0]).is_none());
    assert_eq!(scan_entry(&entries[4]).unwrap().as_str(), "a");
}

#[test]
fn changes_load_and_remove_functions() {
    assert!(matches!(path_changed("a.fx.yaml", false, false), ChangeAction::Remove(id) if id.as_str() == "a"));
    assert!(matches!(path_changed("a.fx.yaml", true, true), ChangeAction::Load(id) if id.as_str() == "a"));
    assert!(matches!(path_changed("a.fx.yaml", true, false), ChangeAction::Ignore));
    assert!(matches!(path_changed("a.wasm", false, false), ChangeAction::Ignore));
    assert_eq!(changed_paths(true, vec![s("a")]), Vec::<String>::new());
    assert_eq!(changed_paths(false, vec![s("a"), s("b")]), vec![s("a"), s("b")]);
}

#[test]
fn paths_are_joined() {
    assert_eq!(join_path("/etc/fx", "functions"), "/etc/fx/functions");
    assert_eq!(join_path("/etc/fx/", "functions"), "/etc/fx/functions");
    assert_eq!(join_path("/etc/fx", "/srv"), "/srv");
    assert_eq!(join_path("", "functions"), "functions");
    assert_eq!(join_path("/etc", ""), "/etc/");
}

#[test]
fn code_comes_from_a_file_or_inline_or_from_beside_the_definition() {
    assert!(matches!(module_source(Some(FunctionCodeConfig::Path(s("a.wasm")))), ModuleSource::File(p) if p == "a.wasm"));
    assert!(matches!(module_source(Some(FunctionCodeConfig::Inline(vec![1, 2]))), ModuleSource::Inline(b) if b == vec![1, 2]));
    assert!(matches!(module_source(None), ModuleSource::BesideDefinition));
}

#[test]
fn deployments_are_numbered_and_hold_what_is_configured() {
    let mut monitor = DefinitionsMonitor::new("/etc/fx", "functions");
    assert_eq!(monitor.functions_directory, "/etc/fx/functions");
    let id = FunctionId::new(s("hello"));
    assert_eq!(monitor.function_id_to_path(&id), "/etc/fx/functions/hello");
    for (name, path) in [
        ("hello", "/etc/fx/functions/hello.wasm"),
        ("v1.2", "/etc/fx/functions/v1.2.wasm"),
        ("a/", "/etc/fx/functions/a.wasm"),
        ("", "/etc/fx/functions.wasm"),
        ("a/.", "/etc/fx/functions/a.wasm"),
        ("..", "/etc/fx/functions/.."),
    ] {
        assert_eq!(monitor.code_path(&FunctionId::new(s(name))), path);
        let beside = std::path::Path::new("/etc/fx/functions").join(name).with_added_extension("wasm");
        assert_eq!(beside.to_str(), Some(path));
    }
    let config = FunctionConfig::new(s("/etc/fx/functions/hello.fx.yaml"))
        .with_env(s("A"), s("1"))
        .with_env(s("A"), s("2"))
        .with_trigger_http(Some(s("replaced.local")))
        .with_trigger_http(Some(s("hello.local")))
        .with_binding_blob(s("files"), s("bucket-1"))
        .with_binding_kv(s("cache"), s("ns"))
        .with_binding_sql(s("db"), s(":memory:"))
        .with_binding_sql(s("disk"), s("data.sqlite"))
        .with_binding_function(FunctionBindingConfig::new(s("x"), s("Other"), None))
        .with_binding_function(FunctionBindingConfig::new(s("y"), s("third"), Some(s("Third.Local"))));
    let files = vec![s(""), s("")];
    let deploy = monitor.apply_config(&id, &config, "/etc/fx/functions", &files);
    assert_eq!(deploy.function_id.as_str(), "hello");
    assert_eq!(deploy.deployment_id.id, 0);
    assert_eq!(deploy.env.get(&s("A")), Some(&s("2")));
    assert_eq!(deploy.env.len(), 1);
    let hosts: Vec<Option<String>> = deploy.http_listeners.iter().map(|l| l.host.clone()).collect();
    assert_eq!(hosts, vec![Some(s("hello.local"))]);
    assert_eq!(deploy.bindings_blob.get(&s("files")).unwrap().bucket, "bucket-1");
    assert_eq!(deploy.bindings_kv.get(&s("cache")).unwrap().namespace, "ns");
    let db = deploy.bindings_sql.get(&s("db")).unwrap();
    match &db.location {
        SqlBindingConfigLocation::InMemory(name) => {
            assert_eq!(name.len(), 36);
            assert_ne!(*name, db.connection_id);
        }
        SqlBindingConfigLocation::Path(_) => panic!("expected a database in memory"),
    }
    assert_eq!(db.connection_id.len(), 36);
    assert!(matches!(
        &deploy.bindings_sql.get(&s("disk")).unwrap().location,
        SqlBindingConfigLocation::Path(p) if p == "/etc/fx/functions/data.sqlite"
    ));
    assert_eq!(deploy.bindings_functions.get(&s("other")).unwrap().function_id.as_str(), "Other");
    assert_eq!(deploy.bindings_functions.get(&s("third.local")).unwrap().function_id.as_str(), "third");
    assert!(deploy.bindings_functions.get(&s("Third.Local")).is_none());
    let again = monitor.apply_config(&id, &FunctionConfig::new(s("x")), "", &Vec::new());
    assert_eq!(again.deployment_id.id, 1);
    assert_eq!(again.env.len() + again.bindings_sql.len() + again.http_listeners.len(), 0);
}

#[test]
fn definitions_are_applied_with_their_schedules() {
    let mut monitor = DefinitionsMonitor::new("/etc/fx", "functions");
    let id = FunctionId::new(s("hello"));
    let config = FunctionConfig::new(s("x")).with_trigger_cron(s("nightly"), s("0 0 3 * * *"));
    let applied = monitor.apply_definition(&id, &config, "/etc/fx/functions", &Vec::new());
    assert_eq!(applied.deploy.function_id.as_str(), "hello");
    assert_eq!(applied.deploy.deployment_id.id, 0);
    let schedule = applied.schedule.unwrap();
    assert_eq!(schedule.len(), 1);
    assert_eq!(schedule[0].id, "hello::nightly");
    assert_eq!(schedule[0].schedule.expression, "0 0 3 * * *");
    let wrong = FunctionConfig::new(s("x")).with_trigger_cron(s("never"), s("sometimes"));
    assert!(monitor.apply_definition(&id, &wrong, "", &Vec::new()).schedule.is_none());
    let plain = monitor.apply_definition(&id, &FunctionConfig::new(s("x")), "", &Vec::new());
    assert_eq!(plain.deploy.deployment_id.id, 2);
    assert!(plain.schedule.unwrap().is_empty());
}

#[test]
fn variables_come_from_values_and_files() {
    let variables = vec![
        EnvVariableConfig { id: s("A"), source: EnvValueSource::Value(s("v")) },
        EnvVariableConfig { id: s("B"), source: EnvValueSource::File(s("/run/secret")) },
    ];
    let env = env_table(&variables, &vec![s("unused"), s("from file")]);
    assert_eq!(env.get(&s("A")), Some(&s("v")));
    assert_eq!(env.get(&s("B")), Some(&s("from file")));
}

#[test]
fn databases_keep_their_ids_and_timeouts() {
    let configured = SqlBindingConfig::new(s("db"), s(":memory:")).with_busy_timeout_ms(250);
    let binding = sql_binding(&configured, "/etc", s("c"), s("m"));
    assert_eq!(binding.connection_id, "c");
    assert_eq!(binding.busy_timeout_ms, Some(250));
    assert!(matches!(binding.location, SqlBindingConfigLocation::InMemory(id) if id == "m"));
    let bound = sql_bindings(
        &vec![SqlBindingConfig::new(s("db"), s("a")), SqlBindingConfig::new(s("db"), s("/b"))],
        "/etc",
    );
    assert_eq!(bound.len(), 1);
    assert!(matches!(&bound.get(&s("db")).unwrap().location, SqlBindingConfigLocation::Path(p) if p == "/b"));
}

#[test]
fn hosts_of_bound_functions_are_lower_case() {
    let bound = function_bindings(&vec![
        FunctionBindingConfig::new(s("1"), s("ÄPI"), None),
        FunctionBindingConfig::new(s("2"), s("first"), Some(s("HOST"))),
        FunctionBindingConfig::new(s("3"), s("second"), Some(s("host"))),
    ]);
    assert_eq!(bound.get(&s("äpi")).unwrap().function_id.as_str(), "ÄPI");
    assert_eq!(bound.get(&s("host")).unwrap().function_id.as_str(), "second");
    assert_eq!(bound.len(), 2);
}

#[test]
fn listeners_without_triggers_are_none() {
    assert!(http_listeners(&None).is_empty());
    assert!(http_listeners(&Some(FunctionTriggersConfig::new())).is_empty());
    let triggers = FunctionTriggersConfig::new().with_http(Some(s("h")));
    assert_eq!(http_listeners(&Some(triggers))[0].host, Some(s("h")));
}

#[test]
fn schedules_are_named_after_their_function() {
    let id = FunctionId::new(s("hello"));
    let configured = vec![
        FunctionCronTriggerConfig::new(s("nightly"), s("0 0 3 * * *")),
        FunctionCronTriggerConfig::new(s("always"), s("* * * * * *")),
    ];
    let made = cron_triggers(&id, &configured);
    assert_eq!(made[0].id, "hello::nightly");
    assert_eq!(made[0].schedule.expression, "0 0 3 * * *");
    assert_eq!(made[1].id, "hello::always");
    assert_eq!(try_cron_triggers(&id, &configured).unwrap().len(), 2);
    let broken = FunctionTriggersConfig::new().with_cron(s("x"), s("every day")).cron.unwrap();
    assert!(try_cron_triggers(&id, &broken).is_none());
}

#[test]
fn configurations_grow_by_triggers_and_a_logger() {
    let config = FunctionConfig::new(s("f.fx.yaml"))
        .with_trigger_http(None)
        .with_trigger_cron(s("nightly"), s("0 0 3 * * *"))
        .with_logger(LoggerConfig::Noop);
    let triggers = config.triggers.unwrap();
    assert_eq!(triggers.http.unwrap()[0].host, None);
    let cron = triggers.cron.unwrap();
    assert_eq!((cron[0].id.as_str(), cron[0].schedule.as_str()), ("nightly", "0 0 3 * * *"));
    assert!(matches!(config.logger, Some(LoggerConfig::Noop)));
    assert!(config.bindings.is_none() && config.env.is_none());
}

#[test]
fn defaults_of_the_server() {
    assert_eq!(ServerPort::default().value, 8080);
    assert_eq!(HttpServerConfig::default().port.value, 8080);
    assert_eq!(BlobConfig::default().path, "/var/lib/fx/blob");
    let config = ServerConfig {
        config_path: None,
        server: HttpServerConfig::default(),
        functions_dir: s("functions"),
        cron_data_path: None,
        blob: None,
        logger: Some(LoggerConfig::Noop),
        introspection: None,
    };
    assert!(config.blob.is_none());
    assert!(FunctionBindingsConfig::new().sql.is_none());
}

#[test]
fn schedules_give_their_next_time() {
    // 2024-01-01 00:00:00 UTC
    let new_year = at(1_704_067_200);
    let nightly = CronSchedule::parse(s("0 0 3 * * *")).unwrap();
    assert_eq!(nightly.next_after(new_year), Some(at(1_704_067_200 + 3 * 3600)));
    assert_eq!(nightly.next_after(at(1_704_067_200 + 3 * 3600)), Some(at(1_704_067_200 + 27 * 3600)));
    assert!(CronSchedule::parse(s("not a schedule")).is_none());
    // the calendar of schedules ends long before that of times
    assert_eq!(nightly.next_after(at(LAST_SECOND - 1)), None);
}

#[test]
fn tasks_run_when_their_time_has_come() {
    assert!(due(None, None, at(0)));
    assert!(due(Some(at(1)), Some(at(5)), at(5)));
    assert!(!due(Some(at(1)), Some(at(5)), at(4)));
    let task = CronTaskDefinition::new(s("t"))
        .try_with_schedule(s("0 * * * * *"))
        .unwrap()
        .with_function_id(s("f"))
        .with_method_name(s("m"));
    assert!(CronTaskDefinition::new(s("t")).try_with_schedule(s("never ever")).is_none());
    let runner = CronRunner::new().with_task(task);
    assert_eq!(runner.should_run(0, None, at(0)), Some(true));
    assert_eq!(runner.should_run(0, Some(at(60)), at(119)), Some(false));
    assert_eq!(runner.should_run(0, Some(at(60)), at(120)), Some(true));
    assert_eq!(runner.after_run(true, at(7)), Some(at(7)));
    assert_eq!(runner.after_run(false, at(7)), None);
}

fn recorded(value: SqlValue) -> QueryResult {
    QueryResult { rows: vec![Row { columns: vec![value] }] }
}

#[test]
fn runs_are_recorded_and_read_back() {
    let run_at = Timestamp { seconds: 1_704_067_200, nanoseconds: 5_000_000 };
    let query = update_run_query("task", run_at);
    assert_eq!(query.query, "insert or replace into cron_tasks (task_id, last_run_at) values (?, ?)");
    assert!(matches!(&query.params[0], SqlValue::Text(t) if t == "task"));
    let text = query.params[1].to_text().unwrap();
    assert_eq!(text, "2024-01-01 00:00:00.005");
    assert_eq!(read_prev_run_time(&recorded(SqlValue::Text(text))), Ok(Some(run_at)));
    assert_eq!(read_prev_run_time(&QueryResult { rows: Vec::new() }), Ok(None));
    assert_eq!(
        read_prev_run_time(&QueryResult { rows: vec![Row { columns: Vec::new() }] }),
        Err(RunRecordError::NoColumn)
    );
    assert_eq!(read_prev_run_time(&recorded(SqlValue::Integer(1))), Err(RunRecordError::NotText));
    assert_eq!(
        read_prev_run_time(&recorded(SqlValue::Text(s("yesterday")))),
        Err(RunRecordError::NotTime)
    );
    assert_eq!(create_table_query().params.len(), 0);
    assert_eq!(prev_run_query("task").query, "select last_run_at from cron_tasks where task_id = ?");
}

fn kv_paths(definition: &FunctionDefinition) -> Vec<(String, String)> {
    definition.kv.iter().map(|kv| (kv.id.clone(), kv.path.clone())).collect()
}

#[test]
fn definitions_are_built() {
    let definition = FunctionDefinition::new()
        .with_kv(KvDefinition::new(s("cache"), s("/cache")))
        .with_sql(SqlDefinition::new(s("db")))
        .with_rpc(RpcDefinition::new(s("other")));
    assert_eq!(kv_paths(&definition), vec![(s("cache"), s("/cache"))]);
    assert!(matches!(definition.sql[0].storage, SqlStorageDefinition::InMemory));
    assert_eq!(definition.rpc[0].id, "other");
    let copy = definition.clone();
    assert_eq!(kv_paths(&copy), kv_paths(&definition));
    assert_eq!(copy.sql[0].id, "db");
}

fn function_config() -> fx_runtime::definition::FunctionConfig {
    fx_runtime::definition::FunctionConfig {
        kv: Some(vec![KvConfig { id: s("k"), path: s("/k") }]),
        sql: Some(vec![SqlConfig { id: s("q"), path: s("/q") }]),
        rpc: None,
    }
}

#[test]
fn definitions_come_from_configurations() {
    let definition = definition_from_config(Ok(function_config())).unwrap();
    assert_eq!(kv_paths(&definition), vec![(s("k"), s("/k"))]);
    assert!(matches!(&definition.sql[0].storage, SqlStorageDefinition::Path(p) if p == "/q"));
    assert!(definition.rpc.is_empty());
    let rpc = fx_runtime::definition::FunctionConfig {
        kv: None,
        sql: None,
        rpc: Some(vec![RpcConfig { id: s("r") }]),
    };
    assert_eq!(definition_from_config(Ok(rpc)).unwrap().rpc[0].id, "r");
    match definition_from_config(Err(s("line 1"))) {
        Err(DefinitionError::ParseError { reason }) => {
            assert_eq!(reason, "failed to load yaml file: line 1")
        }
        _ => panic!("expected a parse error"),
    }
}

#[test]
fn given_definitions_go_before_stored_ones() {
    let id = FunctionId::new(s("f"));
    let other = FunctionId::new(s("g"));
    let provider = DefinitionProvider::new()
        .with_definition(id.clone(), FunctionDefinition::new().with_rpc(RpcDefinition::new(s("x"))));
    let given = provider.definition_for_function(&id, StoredDefinition::Failed(s("disk"))).unwrap();
    assert_eq!(given.rpc[0].id, "x");
    let stored = StoredDefinition::Found(Ok(function_config()));
    assert_eq!(provider.definition_for_function(&other, stored).unwrap().kv.len(), 1);
    let missing = provider.definition_for_function(&other, StoredDefinition::Missing).unwrap();
    assert_eq!(missing.kv.len() + missing.sql.len() + missing.rpc.len(), 0);
    match provider.definition_for_function(&other, StoredDefinition::Failed(s("disk"))) {
        Err(DefinitionError::LoadError { reason }) => {
            assert_eq!(reason, "failed to get definition from storage: disk")
        }
        _ => panic!("expected a load error"),
    }
    match provider.definition_for_function(&other, StoredDefinition::Found(Err(s("line 2")))) {
        Err(DefinitionError::ParseError { reason }) => {
            assert_eq!(reason, "failed to load yaml file: line 2")
        }
        _ => panic!("expected a parse error"),
    }
}
