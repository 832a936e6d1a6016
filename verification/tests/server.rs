use fx_runtime::cron::Timestamp;
use fx_runtime::definitions::config::{
    BlobConfig, HttpServerConfig, LoggerConfig, ServerConfig, ServerPort,
};
use fx_runtime::effects::logs::{
    EventFieldValue, LogEventLevel, LogEventType, LogMessageEvent, LogSource,
};
use fx_runtime::function::id::FunctionId;
use fx_runtime::introspection::{cron_row, format_datetime, introspection, CronTaskState, Rows};
use fx_runtime::runtime::error::FunctionInvokeAndExecuteError;
use fx_runtime::server::config::{FunctionCodeConfig, FunctionConfig};
use fx_runtime::server::consumers::{
    topic_step, MessageAction, RabbitMqConsumer, TopicEvent, TopicStep,
};
use fx_runtime::server::fx_server::{
    blob_or_default, cron_database_location, deploy_outcome, logger_or_default, thread_cores,
    thread_count, CpuInfo, CronDatabaseLocation, CronSkipReason, DeployError,
    DeployFunctionError, FxServer, StartError,
};
use fx_runtime::server::http::{
    respond, response_for_error, ErrorResponse, HttpHandler, HttpHandlerFuture, HttpResponse,
    RequestAnswer, RequestGauges, Served,
};
use fx_runtime::streams::StreamsPool;
use fx_runtime::table::Table;
use fx_runtime::server::logs::{routing_key, RabbitMqAction, RabbitMqLogger};

fn s(text: &str) -> String {
    text.to_string()
}

fn cpu(logical_cores: usize) -> Option<CpuInfo> {
    Some(CpuInfo { logical_cores, processor_ids: (0..logical_cores).map(|i| i * 2).collect() })
}

#[test]
fn threads_fit_the_cores_of_the_machine() {
    assert_eq!(thread_count(None, &cpu(16)), 4);
    assert_eq!(thread_count(None, &cpu(2)), 2);
    assert_eq!(thread_count(Some(8), &cpu(16)), 8);
    assert_eq!(thread_count(Some(32), &cpu(16)), 16);
    assert_eq!(thread_count(Some(32), &None), 32);
    assert_eq!(thread_cores(3, &cpu(16)), vec![Some(0), Some(2), Some(4)]);
    assert_eq!(thread_cores(3, &cpu(2)), vec![Some(0), Some(2)]);
    assert_eq!(thread_cores(2, &None), vec![None, None]);
}

#[test]
fn runs_are_recorded_in_memory_or_beside_the_configuration() {
    assert!(matches!(cron_database_location(None, None, None), Ok(CronDatabaseLocation::InMemory)));
    assert!(matches!(
        cron_database_location(Some("cron.sqlite"), Some("/etc/fx/fx.yaml"), Some("/etc/fx")),
        Ok(CronDatabaseLocation::File(path)) if path == "/etc/fx/cron.sqlite"
    ));
    assert_eq!(cron_database_location(Some("c"), None, None).err(), Some(CronSkipReason::NoConfigPath));
    assert_eq!(cron_database_location(Some("c"), Some("/"), None).err(), Some(CronSkipReason::NoRootDirectory));
}

fn config() -> ServerConfig {
    ServerConfig {
        config_path: Some(s("/etc/fx/fx.yaml")),
        server: HttpServerConfig { port: ServerPort { value: 9000 } },
        functions_dir: s("functions"),
        cron_data_path: Some(s("cron.sqlite")),
        blob: None,
        logger: None,
        introspection: None,
    }
}

#[test]
fn a_server_starts_what_it_is_configured_for() {
    let plan = FxServer::new(config(), Some(3)).start(true, cpu(8), Some("/etc/fx")).unwrap();
    assert_eq!(plan.worker_cores.len(), 3);
    assert_eq!(plan.sql_cores, plan.worker_cores);
    assert_eq!(plan.port, 9000);
    assert!(matches!(plan.logger, LoggerConfig::Stdout));
    assert_eq!(plan.blob.path, "/var/lib/fx/blob");
    assert!(matches!(plan.cron, Ok(CronDatabaseLocation::File(path)) if path == "/etc/fx/cron.sqlite"));
    assert_eq!(FxServer::new(config(), None).start(false, None, None).err(), Some(StartError::InternalInitError));
    assert!(matches!(logger_or_default(Some(LoggerConfig::Noop)), LoggerConfig::Noop));
    assert_eq!(blob_or_default(Some(BlobConfig { path: s("/b") })).path, "/b");
}

#[test]
fn deployments_succeed_or_say_why_not() {
    assert_eq!(deploy_outcome(true, Some(Ok(()))), Ok(()));
    assert_eq!(
        deploy_outcome(true, Some(Err(DeployFunctionError::CompileError))),
        Err(DeployError::CompileError)
    );
    assert_eq!(deploy_outcome(true, None), Err(DeployError::RuntimeShutdown));
    assert_eq!(deploy_outcome(false, Some(Ok(()))), Err(DeployError::RuntimeShutdown));
}

#[test]
fn failures_have_their_responses() {
    type Failure = FunctionInvokeAndExecuteError;
    let answer = |err: Failure| {
        let response = response_for_error(&err);
        (response.status(), response.body())
    };
    assert_eq!(answer(Failure::RuntimeError), (500, s("fx: internal runtime error.\n")));
    assert_eq!(answer(Failure::FunctionRuntimeError), (500, s("fx: internal runtime error.\n")));
    assert_eq!(answer(Failure::CodeFailedToLoad(s("x"))), (500, s("fx: internal runtime error.\n")));
    assert_eq!(answer(Failure::FunctionPanicked { message: s("m") }), (502, s("fx: function error.\n")));
    assert_eq!(answer(Failure::UserApplicationError { description: s("d") }), (502, s("fx: function error.\n")));
    assert_eq!(answer(Failure::HandlerNotDefined), (502, s("fx: function misconfigured.\n")));
    assert_eq!(answer(Failure::CodeNotFound), (404, s("fx error: service not found.\n")));
}

#[test]
fn requests_are_answered() {
    let response = HttpResponse { status: 201, headers: Vec::new(), body: vec![1] };
    assert!(matches!(respond(Served::Answered(response)), RequestAnswer::Function(r) if r.status == 201));
    assert!(matches!(respond(Served::TimedOut), RequestAnswer::Server(ErrorResponse::InternalError)));
    assert!(matches!(respond(Served::NotPushed), RequestAnswer::Server(ErrorResponse::InternalError)));
    assert!(matches!(
        respond(Served::Failed(FunctionInvokeAndExecuteError::CodeNotFound)),
        RequestAnswer::Server(ErrorResponse::ServiceNotFound)
    ));
    let mut handler = HttpHandler::new(FunctionId::new(s("a")));
    handler.update_target_function(FunctionId::new(s("b")));
    assert_eq!(handler.function_id.as_str(), "b");
}

#[test]
fn nothing_stays_in_flight() {
    let before = RequestGauges { requests_in_flight: 2, futures_in_flight: 1, functions_in_flight: 0, requests_total: 7 };
    let mut gauges = before;
    gauges.request_started();
    gauges.future_started();
    gauges.function_started();
    assert_eq!(gauges.functions_in_flight, 1);
    gauges.function_finished();
    gauges.request_finished();
    assert_eq!(gauges, RequestGauges { requests_total: 8, ..before });
}

#[test]
fn served_requests_leave_nothing_behind() {
    let before = RequestGauges { requests_in_flight: 2, futures_in_flight: 1, functions_in_flight: 0, requests_total: 7 };
    let mut gauges = before;
    let mut streams: StreamsPool<u8> = StreamsPool::new();
    let headers = vec![(s("accept"), b"*/*".to_vec()), (s("x-request-id"), b"r 1".to_vec()), (s("x-request-id"), b"r2".to_vec())];
    let mut request = HttpHandlerFuture::new(FunctionId::new(s("f")), &headers, &mut gauges);
    assert_eq!(request.request_id, Some(s("r 1")));
    let sent = request.invoke(&mut streams, &mut gauges, (s("GET"), s("/x"), headers), 5).unwrap();
    assert_eq!((sent.method.as_str(), sent.url.as_str(), sent.body, sent.headers.len()), ("GET", "/x", Some(0), 3));
    assert!(matches!(streams.len(), Ok(1)));
    assert_eq!(gauges.functions_in_flight, 1);
    let answer = request.finish(Served::TimedOut, &mut streams, &mut gauges);
    assert!(matches!(answer, RequestAnswer::Server(ErrorResponse::InternalError)));
    assert!(matches!(streams.len(), Ok(0)));
    assert_eq!(gauges, RequestGauges { requests_total: 8, ..before });
}

#[test]
fn bodies_that_the_pool_does_not_take_are_not_served() {
    let mut gauges = RequestGauges { requests_in_flight: 0, futures_in_flight: 0, functions_in_flight: 0, requests_total: 0 };
    let mut streams: StreamsPool<u8> = StreamsPool::new();
    streams.poisoned = true;
    let headers = vec![(s("x-request-id"), vec![200])];
    let mut request = HttpHandlerFuture::new(FunctionId::new(s("f")), &headers, &mut gauges);
    assert_eq!(request.request_id, None);
    assert!(request.invoke(&mut streams, &mut gauges, (s("GET"), s("/"), headers), 5).is_none());
    let answer = request.finish(Served::NotPushed, &mut streams, &mut gauges);
    assert!(matches!(answer, RequestAnswer::Server(ErrorResponse::InternalError)));
    assert_eq!((gauges.requests_in_flight, gauges.functions_in_flight, gauges.requests_total), (0, 0, 1));
}

#[test]
fn messages_are_routed_to_the_broker() {
    assert_eq!(routing_key(&LogSource::FxRuntime), "fx/runtime");
    let source = LogSource::Function { id: s("f") };
    assert_eq!(routing_key(&source), "fx/function/f");
    let mut logger = RabbitMqLogger::new();
    let event = |id: &str| {
        let mut fields = Table::new();
        fields.insert(s("k"), EventFieldValue::U64(3));
        LogMessageEvent::new(LogSource::Function { id: s(id) }, LogEventType::Begin, LogEventLevel::Warn, fields)
    };
    match logger.received(Some(event("f"))) {
        RabbitMqAction::Publish { routing_key, event } => {
            assert_eq!(routing_key, "fx/function/f");
            assert!(matches!(event.source, LogSource::Function { id } if id == "f"));
            assert_eq!((event.event_type, event.level), (LogEventType::Begin, LogEventLevel::Warn));
            assert!(matches!(event.fields.get(&s("k")), Some(EventFieldValue::U64(3))));
        }
        _ => panic!("expected a message to publish"),
    }
    assert!(matches!(logger.published(false), RabbitMqAction::Reconnect));
    assert!(matches!(logger.reconnected(), RabbitMqAction::Receive));
    let _ = logger.received(Some(event("g")));
    assert!(matches!(logger.published(true), RabbitMqAction::Receive));
    assert!(matches!(logger.received(None), RabbitMqAction::Stop));
    assert_eq!(logger, RabbitMqLogger::Stopped);
}

#[test]
fn queues_are_acknowledged_or_wait() {
    let consumer = RabbitMqConsumer::new(s("amqp://x"), s("id"), s("q"), s("f"), s("handle"));
    assert_eq!(consumer.function_id.as_str(), "f");
    assert_eq!(consumer.handled(true), MessageAction::Acknowledge);
    assert_eq!(consumer.handled(false), MessageAction::RejectAndWait { seconds: 1 });
    assert_eq!(topic_step(TopicEvent::Handled), TopicStep::Commit);
    assert_eq!(topic_step(TopicEvent::Committed), TopicStep::Receive { wait_seconds: 0 });
    for event in [TopicEvent::NotInvoked, TopicEvent::Failed, TopicEvent::CommitFailed] {
        assert_eq!(topic_step(event), TopicStep::Receive { wait_seconds: 1 });
    }
}

fn task(last_run: Option<Timestamp>, running: bool) -> CronTaskState {
    CronTaskState {
        name: s("nightly"),
        function_id: FunctionId::new(s("f")),
        schedule: s("0 0 3 * * *"),
        last_run,
        running,
    }
}

#[test]
fn times_are_shown_in_utc() {
    let time = Timestamp { seconds: 1_704_067_200, nanoseconds: 999 };
    assert_eq!(format_datetime(&time), "2024-01-01 00:00:00 UTC");
    assert_eq!(format_datetime(&Timestamp { seconds: -1, nanoseconds: 0 }), "1969-12-31 23:59:59 UTC");
}

#[test]
fn the_page_shows_functions_and_schedules() {
    let page = introspection(&Vec::new(), &Vec::new());
    assert_eq!(page.function_count, 0);
    assert!(matches!(page.functions, Rows::Empty("no functions deployed")));
    assert!(matches!(page.cron_tasks, Rows::Empty("no cron tasks configured")));
    let functions = vec![FunctionId::new(s("b")), FunctionId::new(s("a"))];
    let page = introspection(&functions, &vec![task(None, false)]);
    assert_eq!(page.function_count, 2);
    assert!(matches!(page.functions, Rows::Listed(names) if names == vec![s("b"), s("a")]));
    assert!(matches!(page.cron_tasks, Rows::Listed(rows) if rows[0].last_run == "never" && rows[0].state == "idle"));
    let row = cron_row(&task(Some(Timestamp { seconds: 0, nanoseconds: 0 }), true));
    assert_eq!(row.last_run, "1970-01-01 00:00:00 UTC");
    assert_eq!((row.state, row.function_id.as_str(), row.schedule.as_str()), ("running", "f", "0 0 3 * * *"));
}

#[test]
fn configurations_are_built() {
    let config = FunctionConfig::new(s("/f.yaml")).with_code_inline(vec![1]);
    assert_eq!(config.config_path, Some(s("/f.yaml")));
    assert!(matches!(config.code, Some(FunctionCodeConfig::Inline(code)) if code == vec![1]));
    assert!(config.triggers.is_none() && config.bindings.is_none());
}
