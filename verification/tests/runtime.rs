use fx_runtime::compiler::{
    CompilerError, CompilerMetadata, CraneliftCompiler, MemoizedCompiler, MemoizedStep,
};
use fx_runtime::definition::{
    DefinitionError, FunctionDefinition, KvDefinition, RpcDefinition, SqlDefinition,
    SqlStorageDefinition,
};
use fx_runtime::effects::logs::{EventFieldValue, LogEventLevel, LogLevel};
use fx_runtime::effects::sql::{QueryResult, SqlError, SqlValue};
use fx_runtime::function::deployment::ModuleImport;
use fx_runtime::function::id::FunctionId;
use fx_runtime::poll::Poll;
use fx_runtime::runtime::api::{
    fx_api_handler, fx_api_work, ApiAnswer, ApiCall, ApiRequest, ApiWork,
    HostFutureAsyncApiError, KvGetAnswer, KvSetAnswer, RpcAnswer, RpcApiAsyncError,
    SqlDoneAnswer, SqlExecAnswer, SqlQueryMessage,
};
use fx_runtime::runtime::calls::{
    api_fetch, api_kv_get, api_kv_set, api_log, api_rpc, api_sql_batch, api_sql_exec,
    api_sql_migrate, api_stream_export, api_stream_poll_next, fetch_outcome, future_poll_code,
    handler_export, kv_get_code, pool_code, rpc_outcome, stream_poll_code, stream_poll_next,
    ExportFault, FxFutureError, FxSqlError, FxStreamError, RpcCall, RpcStep,
};
use fx_runtime::runtime::engine::{
    plan_context, unsupported_imports, Engine, ExecutionContext, ExecutionContextId, ExecutionEnv,
    InvokeStep, RpcBinding,
};
use fx_runtime::runtime::error::{
    FunctionExecutionError, FunctionExecutionInternalRuntimeError, FunctionInvokeAndExecuteError,
    FunctionInvokeError, FunctionInvokeInternalRuntimeError, FxRuntimeError, MetricsError,
};
use fx_runtime::runtime::future::{
    function_future_poll, function_invoke, function_stream_poll_next, FunctionApiError,
    FunctionCall, FunctionFuturePollApiError, FunctionInvokeApiError, FunctionRuntimeFuture,
    FuturePollReply, InvokeReply, StreamPollReply,
};
use fx_runtime::runtime::memory::{
    read_memory_owned, read_message, write_answer, write_memory, write_memory_obj, PtrWithLen,
};
use fx_runtime::runtime::metrics::FunctionMetrics;
use fx_runtime::runtime::queue::{BoxStream, Queue};
use fx_runtime::streams::{
    FxStream, HostPoolIndex, StreamSource, StreamsPool, StreamsPoolInner, LOCK_POISONED,
};
use fx_runtime::table::Table;

fn s(text: &str) -> String {
    text.to_string()
}

fn id(name: &str) -> FunctionId {
    FunctionId::new(s(name))
}

fn metadata() -> CompilerMetadata {
    CompilerMetadata { backend: s("cranelift") }
}

fn context(name: &str, instance: u32) -> ExecutionContext<u32> {
    match ExecutionContext::new(id(name), Ok(metadata()), Ok(instance)) {
        Ok(context) => context,
        Err(_) => panic!("expected a context"),
    }
}

#[test]
fn contexts_need_code_and_an_instance() {
    let reason = CompilerError::FailedToCompile { reason: s("bad magic") };
    assert!(matches!(
        ExecutionContext::<u32>::new(id("f"), Err(reason), Ok(1)),
        Err(FunctionInvokeError::FailedToCompile(CompilerError::FailedToCompile { reason })) if reason == "bad magic"
    ));
    assert!(matches!(
        ExecutionContext::<u32>::new(id("f"), Ok(metadata()), Err(s("no memory"))),
        Err(FunctionInvokeError::FailedToInstantiate(fault)) if fault == "no memory"
    ));
    let fresh = context("f", 7);
    assert_eq!(fresh.instance, 7);
    assert!(!fresh.needs_recreate);
}

#[test]
fn a_reset_forgets_what_was_to_be_dropped() {
    let mut context = context("f", 1);
    context.needs_recreate = true;
    context.futures_to_drop.push(4);
    context.streams_to_drop.push(5);
    assert!(matches!(context.reset(Err(s("trap"))), Err(FunctionInvokeError::FailedToInstantiate(f)) if f == "trap"));
    assert!(context.needs_recreate);
    assert_eq!(context.futures_to_drop, vec![4]);
    assert!(context.reset(Ok(2)).is_ok());
    assert_eq!(context.instance, 2);
    assert!(!context.needs_recreate);
    assert!(context.futures_to_drop.is_empty() && context.streams_to_drop.is_empty());
}

#[test]
fn names_point_to_contexts() {
    let mut engine: Engine<u32> = Engine::new();
    let f = id("f");
    let first = engine.resolve_context_id_for_function(&f);
    assert_eq!(first.id, 0);
    assert_eq!(engine.resolve_context_id_for_function(&f), first);
    assert_eq!(engine.resolve_context_id_for_function(&id("g")).id, 1);
    assert!(matches!(engine.invoke_service_raw(&f, Ok(())), Err(FunctionInvokeError::CodeNotFound)));
    assert!(engine.need_to_create_context(&f));

    let created = engine.create_execution_context(Ok(context("f", 10))).unwrap();
    assert_eq!(created.id, 2);
    assert_eq!(engine.update_function_execution_context(f.clone(), created), Some(first));
    assert_eq!(engine.update_function_execution_context(id("h"), created), None);
    assert_eq!(engine.invoke_service_raw(&f, Ok(())).unwrap(), InvokeStep::Run(created));
    assert!(!engine.need_to_create_context(&f));
    assert!(matches!(
        engine.invoke_service_raw(&f, Err(s("poisoned"))),
        Err(FunctionInvokeError::RuntimeError(FunctionInvokeInternalRuntimeError::ExecutionContextsFailedToLock { reason })) if reason == "poisoned"
    ));

    engine.reload(&f);
    assert_eq!(engine.invoke_service_raw(&f, Ok(())).unwrap(), InvokeStep::Reset(created));
    assert!(engine.need_to_create_context(&f));

    let names: Vec<String> = engine.list_functions().iter().map(|f| f.as_string()).collect();
    assert_eq!(names, vec![s("f"), s("h")]);

    engine.stream_drop(&created, 9);
    assert_eq!(engine.execution_contexts.get(&created).unwrap().streams_to_drop, vec![9]);
    engine.remove_execution_context(&created);
    assert!(matches!(engine.invoke_service_raw(&f, Ok(())), Err(FunctionInvokeError::CodeNotFound)));
    assert!(engine.list_functions().is_empty());
}

#[test]
fn a_context_that_failed_still_takes_a_number() {
    let mut engine: Engine<u32> = Engine::new();
    assert!(matches!(
        engine.create_execution_context(Err(FunctionInvokeError::CodeNotFound)),
        Err(FunctionInvokeError::CodeNotFound)
    ));
    assert_eq!(engine.create_execution_context(Ok(context("f", 1))).unwrap(), ExecutionContextId::new(1));
}

#[test]
fn deploying_leaves_others_alone() {
    let mut engine: Engine<u32> = Engine::new();
    for name in ["a", "b"] {
        let created = engine.create_execution_context(Ok(context(name, 1))).unwrap();
        engine.update_function_execution_context(id(name), created);
    }
    let before = engine.invoke_service_raw(&id("b"), Ok(())).unwrap();
    let created = engine.create_execution_context(Ok(context("a", 2))).unwrap();
    engine.update_function_execution_context(id("a"), created);
    assert_eq!(engine.invoke_service_raw(&id("a"), Ok(())).unwrap(), InvokeStep::Run(created));
    assert_eq!(engine.invoke_service_raw(&id("b"), Ok(())).unwrap(), before);
}

#[test]
fn contexts_are_planned_from_definitions() {
    let definition = FunctionDefinition::new()
        .with_kv(KvDefinition::new(s("cache"), s("/a")))
        .with_kv(KvDefinition::new(s("cache"), s("/b")))
        .with_sql(SqlDefinition::new(s("db")))
        .with_rpc(RpcDefinition::new(s("other")));
    let plan = match plan_context(Ok(definition), Ok(Some(vec![0, 97, 115, 109]))) {
        Ok(plan) => plan,
        Err(_) => panic!("expected a plan"),
    };
    assert_eq!(plan.module_code, vec![0, 97, 115, 109]);
    assert_eq!(plan.kv.get(&s("cache")), Some(&s("/b")));
    assert!(matches!(plan.sql.get(&s("db")), Some(SqlStorageDefinition::InMemory)));
    assert_eq!(plan.rpc.get(&s("other")).unwrap().target_function.as_str(), "other");
    assert!(plan.allow_fetch && plan.allow_log);

    let missing = DefinitionError::LoadError { reason: s("r") };
    assert!(matches!(
        plan_context(Err(missing), Ok(None)),
        Err(FunctionInvokeError::DefinitionMissing(DefinitionError::LoadError { .. }))
    ));
    assert!(matches!(plan_context(Ok(FunctionDefinition::new()), Ok(None)), Err(FunctionInvokeError::CodeNotFound)));
    assert!(matches!(
        plan_context(Ok(FunctionDefinition::new()), Err(s("disk"))),
        Err(FunctionInvokeError::CodeFailedToLoad(fault)) if fault == "disk"
    ));
}

#[test]
fn imports_from_elsewhere_are_filled_in() {
    let import = |module: &str, name: &str| ModuleImport { module: s(module), name: s(name), is_function: true };
    let imports = vec![import("fx", "fx_api"), import("wbg", "now"), import("env", "abort")];
    assert_eq!(
        unsupported_imports(&imports, &vec![s("fx")]),
        vec![(s("wbg"), s("now")), (s("env"), s("abort"))]
    );
    assert!(unsupported_imports(&imports, &vec![s("fx"), s("wbg"), s("env")]).is_empty());
}

#[test]
fn an_environment_is_handed_over_whole() {
    let mut storage: Table<String, u8> = Table::new();
    storage.insert(s("cache"), 1);
    let mut rpc: Table<String, RpcBinding> = Table::new();
    rpc.insert(s("other"), RpcBinding::new(id("other")));
    let mut env: ExecutionEnv<u8, u8, u8> = ExecutionEnv::new(
        id("f"),
        ExecutionContextId::new(3),
        storage,
        Table::new(),
        rpc,
        false,
        false,
        Some(9),
    );
    env.handle_send_error(&[1, 2, 3, 4], 1, 2);
    assert_eq!(env.execution_error, Some(vec![2, 3]));
    env.handle_send_rpc_response(&[1, 2, 3, 4], 0, 4);
    assert_eq!(env.rpc_response, Some(vec![1, 2, 3, 4]));
    let fresh = env.reset();
    assert_eq!(fresh.execution_context_id.id, 3);
    assert_eq!(fresh.function_id.as_str(), "f");
    assert!(fresh.execution_error.is_none() && fresh.rpc_response.is_none());
    assert_eq!(fresh.storage.get(&s("cache")), Some(&1));
    assert!(fresh.rpc.contains_key(&s("other")));
    assert!(fresh.allow_fetch && fresh.allow_log);
    assert_eq!(fresh.logger, Some(9));
    assert_eq!(env.storage.len(), 0);
    assert!(env.logger.is_none());
}

fn future() -> FunctionRuntimeFuture {
    FunctionRuntimeFuture::new(id("f"), ExecutionContextId::new(0), s("http"), vec![1, 2])
}

#[test]
fn an_execution_starts_and_is_polled() {
    let mut context = context("f", 1);
    context.futures_to_drop = vec![4, 2];
    context.streams_to_drop = vec![8];
    let mut future = future();
    let work = future.poll(&mut context, true).unwrap();
    assert_eq!(work.drop_futures, vec![4, 2]);
    assert_eq!(work.drop_streams, vec![8]);
    assert!(matches!(work.call, FunctionCall::Invoke { function_name, argument } if function_name == "http" && argument == vec![1, 2]));
    assert!(context.futures_to_drop.is_empty());

    let started = future.invoked(&mut context, Ok(11)).unwrap();
    assert_eq!(started, 11);
    assert!(matches!(future.first_polled(&mut context, started, Ok(Poll::Pending)), Poll::Pending));
    assert_eq!(future.rpc_future_index, Some(11));
    let again = future.poll(&mut context, true).unwrap();
    assert!(matches!(again.call, FunctionCall::Poll { future_id: 11 }));
    match future.polled(&context, Ok(Poll::Ready(vec![9]))) {
        Poll::Ready(Ok((response, event))) => {
            assert_eq!(response, vec![9]);
            assert_eq!(event.compiler_metadata.backend, "cranelift");
        }
        _ => panic!("expected an answer"),
    }
    assert_eq!(future.rpc_future_index, None);
    assert!(!context.needs_recreate);
}

#[test]
fn a_context_that_cannot_be_taken_ends_the_execution() {
    let mut context = context("f", 1);
    assert!(matches!(
        future().poll(&mut context, false),
        Err(FunctionExecutionError::RuntimeError(FunctionExecutionInternalRuntimeError::StoreFailedToLock))
    ));
}

#[test]
fn panics_have_the_context_created_anew() {
    let mut target = context("f", 1);
    let panicked = FunctionInvokeApiError::FunctionPanicked { message: s("boom") };
    assert!(matches!(
        future().invoked(&mut target, Err(panicked)),
        Err(FunctionExecutionError::FunctionPanicked { message }) if message == "boom"
    ));
    assert!(target.needs_recreate);

    let mut target = context("f", 1);
    assert!(matches!(
        future().invoked(&mut target, Err(FunctionInvokeApiError::HandlerNotDefined)),
        Err(FunctionExecutionError::HandlerNotDefined)
    ));
    assert!(!target.needs_recreate);

    let mut execution = future();
    let user = FunctionFuturePollApiError::UserApplicationError { description: s("bad input") };
    assert!(matches!(
        execution.first_polled(&mut target, 1, Err(user)),
        Poll::Ready(Err(FunctionExecutionError::UserApplicationError { description })) if description == "bad input"
    ));
    assert!(!target.needs_recreate);
    let panicked = FunctionFuturePollApiError::FunctionPanicked { message: s("boom") };
    assert!(matches!(
        execution.first_polled(&mut target, 1, Err(panicked)),
        Poll::Ready(Err(FunctionExecutionError::FunctionPanicked { .. }))
    ));
    assert!(target.needs_recreate);
    assert!(matches!(
        execution.polled(&target, Err(FunctionFuturePollApiError::FunctionRuntimeError)),
        Poll::Ready(Err(FunctionExecutionError::FunctionRuntimeError))
    ));
}

#[test]
fn given_up_executions_are_dropped_later() {
    let mut context = context("f", 1);
    let mut given_up = future();
    given_up.dropped(&mut context);
    assert!(context.futures_to_drop.is_empty());
    given_up.rpc_future_index = Some(6);
    given_up.dropped(&mut context);
    assert_eq!(future().poll(&mut context, true).unwrap().drop_futures, vec![6]);
}

#[test]
fn replies_of_functions_are_understood() {
    assert_eq!(function_invoke(Ok(InvokeReply::FutureId(3))).unwrap(), 3);
    assert!(matches!(
        function_invoke(Ok(InvokeReply::HandlerNotFound)),
        Err(FunctionInvokeApiError::HandlerNotDefined)
    ));
    let panicked = || FunctionApiError::FunctionPanicked { message: s("m") };
    assert!(matches!(function_invoke(Err(panicked())), Err(FunctionInvokeApiError::FunctionPanicked { .. })));
    assert!(matches!(function_future_poll(Ok(FuturePollReply::Pending)), Ok(Poll::Pending)));
    assert!(matches!(function_future_poll(Ok(FuturePollReply::Ready(vec![1]))), Ok(Poll::Ready(r)) if r == vec![1]));
    assert!(matches!(
        function_future_poll(Ok(FuturePollReply::InternalRuntimeError)),
        Err(FunctionFuturePollApiError::FunctionRuntimeError)
    ));
    assert!(matches!(
        function_future_poll(Err(panicked())),
        Err(FunctionFuturePollApiError::FunctionPanicked { .. })
    ));
    assert!(matches!(function_stream_poll_next(StreamPollReply::Pending), Poll::Pending));
    assert!(matches!(function_stream_poll_next(StreamPollReply::Ready(vec![2])), Poll::Ready(Some(_))));
    assert!(matches!(function_stream_poll_next(StreamPollReply::Finished), Poll::Ready(None)));
}

#[test]
fn errors_of_invocations_and_executions_come_together() {
    type Both = FunctionInvokeAndExecuteError;
    let internal = FunctionInvokeInternalRuntimeError::ExecutionContextsFailedToLock { reason: s("r") };
    assert!(matches!(Both::from(FunctionInvokeError::from(internal)), Both::RuntimeError));
    assert!(matches!(Both::from(FunctionInvokeError::CodeNotFound), Both::CodeNotFound));
    assert!(matches!(Both::from(FunctionInvokeError::CodeFailedToLoad(s("x"))), Both::CodeFailedToLoad(_)));
    assert!(matches!(Both::from(FunctionInvokeError::FailedToInstantiate(s("x"))), Both::FailedToInstantiate(_)));
    assert!(matches!(Both::from(FunctionExecutionError::HandlerNotDefined), Both::HandlerNotDefined));
    assert!(matches!(Both::from(FunctionExecutionError::FunctionRuntimeError), Both::FunctionRuntimeError));
    let locked = FunctionExecutionInternalRuntimeError::StoreFailedToLock;
    assert!(matches!(Both::from(FunctionExecutionError::from(locked)), Both::RuntimeError));
    let rpc = RpcApiAsyncError::from(FunctionExecutionError::HandlerNotDefined);
    assert!(matches!(
        HostFutureAsyncApiError::from(rpc),
        HostFutureAsyncApiError::Rpc(RpcApiAsyncError::FunctionInvocation(FunctionExecutionError::HandlerNotDefined))
    ));
}

#[test]
fn memory_is_written_and_read() {
    let mut memory = [0u8; 40];
    write_memory(&mut memory, 3, &[7, 8, 9]);
    assert_eq!(read_memory_owned(&memory, 2, 5), vec![0, 7, 8, 9, 0]);
    write_memory_obj(&mut memory, 0, PtrWithLen { ptr: 0x0102, len: -1 });
    assert_eq!(&memory[0..16], &[2, 1, 0, 0, 0, 0, 0, 0, 255, 255, 255, 255, 255, 255, 255, 255]);
    write_answer(&mut memory, 20, &[5, 6], 0);
    assert_eq!(&memory[20..22], &[5, 6]);
    assert_eq!(memory[0], 20);
    assert_eq!(memory[8], 2);
}

#[test]
fn framed_messages_come_back() {
    let mut memory = vec![0u8; 600];
    let body: Vec<u8> = (0..300u32).map(|i| (i % 251) as u8).collect();
    memory[10..14].copy_from_slice(&300u32.to_le_bytes());
    memory[14..314].copy_from_slice(&body);
    let message = read_message(&memory, 10);
    assert_eq!(message.body, body);
    assert_eq!(message.freed, 304);
    assert!(read_message(&memory, 400).body.is_empty());
}

#[test]
fn handlers_are_called_through_their_exports() {
    assert_eq!(handler_export("http"), "_fx_rpc_http");
    assert!(matches!(FxRuntimeError::from(ExportFault::Missing), FxRuntimeError::RpcHandlerNotDefined));
    assert!(matches!(
        FxRuntimeError::from(ExportFault::IncompatibleType),
        FxRuntimeError::RpcHandlerIncompatibleType
    ));
    let mut context = context("f", 1);
    context.futures_to_drop = vec![3];
    let mut call = RpcCall::new(id("f"), s("http"), vec![]);
    let work = call.poll(&mut context, true, false).unwrap();
    assert!(work.drop_futures.is_empty());
    assert!(matches!(work.step, RpcStep::Call { export } if export == "_fx_rpc_http"));
    assert_eq!(call.called(&mut context, None, Ok(5)).unwrap(), 5);
    assert!(matches!(call.first_polled(&mut context, 5, Ok(0), None), Poll::Pending));
    let work = call.poll(&mut context, true, true).unwrap();
    assert_eq!(work.drop_futures, vec![3]);
    assert!(matches!(work.step, RpcStep::Poll { index: 5 }));
    call.dropped(&mut context);
    assert_eq!(context.futures_to_drop, vec![5]);
    assert!(matches!(call.polled(Ok(1), Some(vec![1])), Poll::Ready(Ok(r)) if r == vec![1]));
    assert_eq!(call.rpc_future_index, None);
    assert!(!context.needs_recreate);
}

#[test]
fn failed_calls_have_the_context_created_anew() {
    let call = RpcCall::new(id("f"), s("http"), vec![]);
    let mut target = context("f", 1);
    assert!(matches!(
        call.called(&mut target, Some(s("oops")), Ok(1)),
        Err(FxRuntimeError::ServiceExecutionError { error }) if error == "oops"
    ));
    assert!(target.needs_recreate);
    let mut target = context("f", 1);
    assert!(matches!(
        call.called(&mut target, None, Err(s("trap"))),
        Err(FxRuntimeError::ServiceInternalError { reason }) if reason == "rpc call failed: trap"
    ));
    assert!(target.needs_recreate);
    let mut call = call;
    assert!(matches!(
        call.polled(Err(s("trap")), None),
        Poll::Ready(Err(FxRuntimeError::ServiceInternalError { reason })) if reason == "failed when polling future: trap"
    ));
    assert!(matches!(
        call.poll(&mut target, false, true),
        Err(FxRuntimeError::ExecutionContextRuntimeError { reason }) if reason == "failed to lock ctx.store when polling FunctionRuntimeFuture."
    ));
    assert!(matches!(
        call.first_polled(&mut target, 1, Err(s("trap")), None),
        Poll::Ready(Err(FxRuntimeError::ServiceInternalError { .. }))
    ));
}

#[test]
fn streams_of_functions_answer_in_numbers() {
    assert!(matches!(stream_poll_next(0, None), Poll::Pending));
    assert!(matches!(stream_poll_next(1, Some(vec![4])), Poll::Ready(Some(Ok(item))) if item == vec![4]));
    assert!(matches!(stream_poll_next(2, None), Poll::Ready(None)));
    for (code, digits) in [(-7i64, "-7"), (3, "3"), (i64::MIN, "-9223372036854775808")] {
        match stream_poll_next(code, None) {
            Poll::Ready(Some(Err(FxRuntimeError::StreamingError { reason }))) => assert_eq!(
                reason,
                format!("unexpected repsonse code from _fx_stream_next: {}", digits)
            ),
            _ => panic!("expected an error"),
        }
    }
}

#[test]
fn the_host_answers_in_numbers() {
    assert_eq!(kv_get_code(None), (2, None));
    assert_eq!(kv_get_code(Some(vec![1])), (0, Some(vec![1])));
    assert_eq!(pool_code::<()>(Ok(HostPoolIndex(8))), 8);
    assert_eq!(pool_code(Err(s("full"))), -1);
    assert_eq!(future_poll_code(Poll::Ready(3)), (1, Some(3)));
    assert_eq!(future_poll_code::<u8>(Poll::Pending), (0, None));
    assert_eq!(stream_poll_code::<u8>(Poll::Pending), (0, None));
    assert_eq!(stream_poll_code(Poll::Ready(Some(3))), (1, Some(3)));
    assert_eq!(stream_poll_code::<u8>(Poll::Ready(None)), (2, None));
}

#[test]
fn streams_pass_through_numbers_unchanged() {
    for poll in [Poll::Pending, Poll::Ready(None), Poll::Ready(Some(vec![7u8]))] {
        let expected = match &poll {
            Poll::Pending => None,
            Poll::Ready(item) => Some(item.clone()),
        };
        let (code, response) = stream_poll_code(poll);
        let heard = match stream_poll_next(code, response) {
            Poll::Pending => None,
            Poll::Ready(None) => Some(None),
            Poll::Ready(Some(Ok(item))) => Some(Some(item)),
            Poll::Ready(Some(Err(_))) => panic!("expected a known number"),
        };
        assert_eq!(heard, expected);
    }
}

#[test]
fn functions_are_told_why_streams_fail() {
    assert!(matches!(api_stream_export(Ok(HostPoolIndex(3))), Ok(3)));
    let poisoned = FxRuntimeError::StreamingError { reason: s("x") };
    assert!(matches!(
        api_stream_export(Err(poisoned)),
        Err(FxStreamError::PushFailed { reason }) if reason == "streaming error: x"
    ));
    assert!(matches!(api_stream_poll_next(Poll::Ready(Some(Ok(vec![1])))), (1, Some(Ok(item))) if item == vec![1]));
    assert!(matches!(api_stream_poll_next(Poll::Ready(None)), (2, None)));
    assert!(matches!(api_stream_poll_next(Poll::Pending), (0, None)));
    assert!(matches!(
        api_stream_poll_next(Poll::Ready(Some(Err(FxRuntimeError::StreamNotFound)))),
        (1, Some(Err(FxStreamError::PollFailed { reason }))) if reason == "stream not found"
    ));
}

#[test]
fn calls_are_read_from_memory() {
    let memory: &[u8] = b"otherrunargument";
    let call = api_rpc(memory, (0, 5), (5, 3), (8, 8));
    assert_eq!((call.function_id.as_str(), call.function_name.as_str()), ("other", "run"));
    assert_eq!(call.argument, b"argument".to_vec());
    assert!(matches!(rpc_outcome(Ok(vec![1])), Ok(response) if response == vec![1]));
    assert!(matches!(
        rpc_outcome(Err(FxRuntimeError::RpcHandlerNotDefined)),
        Err(FxFutureError::RpcError { reason }) if reason == "rpc handler not defined"
    ));
    let mut storage: Table<String, u8> = Table::new();
    storage.insert(s("other"), 0);
    assert_eq!(api_kv_get(memory, &storage, (0, 5), (5, 3)), Ok((s("other"), b"run".to_vec())));
    assert_eq!(api_kv_get(memory, &storage, (0, 4), (5, 3)), Err(1));
    assert_eq!(
        api_kv_set(memory, &storage, (0, 5), (5, 3), (8, 8)),
        Ok((s("other"), b"run".to_vec(), b"argument".to_vec()))
    );
    assert_eq!(api_kv_set(memory, &storage, (1, 4), (5, 3), (8, 8)), Err(1));
}

#[test]
fn requests_name_their_bodies() {
    let mut streams: StreamsPool<u8> = StreamsPool::new();
    let index = match streams.push(4) {
        Ok(index) => index.0 as i64,
        Err(_) => panic!("expected a number"),
    };
    assert!(matches!(api_fetch(true, Ok(None), &mut streams), Ok(None)));
    assert!(matches!(
        api_fetch(true, Ok(Some(index)), &mut streams),
        Ok(Some(body)) if body.index == index && matches!(body.stream, FxStream::HostStream(4))
    ));
    let failed = |request, streams: &mut StreamsPool<u8>| match api_fetch(true, request, streams) {
        Err(FxFutureError::FetchError { reason }) => reason,
        Err(FxFutureError::SerializationError { reason }) => reason,
        _ => panic!("expected a failure"),
    };
    assert_eq!(failed(Ok(Some(index)), &mut streams), "stream not found");
    assert_eq!(failed(Err(s("eof")), &mut streams), "failed to decode memory: eof");
    streams.poisoned = true;
    let fault = FxRuntimeError::StreamingError { reason: s(LOCK_POISONED) };
    assert_eq!(failed(Ok(Some(index)), &mut streams), format!("failed to read stream: {fault:?}"));
    assert!(matches!(fetch_outcome(Ok(vec![2])), Ok(response) if response == vec![2]));
    assert!(matches!(
        fetch_outcome(Err(s("refused"))),
        Err(FxFutureError::FetchError { reason }) if reason == "request failed: refused"
    ));
}

#[test]
fn faults_are_described() {
    let reason = || s("why");
    let texts = vec![
        (FxRuntimeError::ServiceNotFound, "service not found"),
        (FxRuntimeError::StorageInternalError { reason: reason() }, "internal storage error: why"),
        (FxRuntimeError::ServiceInternalError { reason: reason() }, "internal service error: why"),
        (FxRuntimeError::ExecutionContextInitError { reason: reason() }, "failed to init execution context: why"),
        (FxRuntimeError::ExecutionContextRuntimeError { reason: reason() }, "execution context runtime error: why"),
        (FxRuntimeError::ServiceExecutionError { error: reason() }, "service execution error: why"),
        (FxRuntimeError::CompilationError { reason: reason() }, "compilation error: why"),
        (FxRuntimeError::RpcHandlerNotDefined, "rpc handler not defined"),
        (FxRuntimeError::RpcHandlerIncompatibleType, "rcp handler has incompatible type"),
        (FxRuntimeError::ModuleCodeNotFound, "storage does not contain code for this module"),
        (FxRuntimeError::DefinitionError { reason: reason() }, "definition error"),
        (FxRuntimeError::ConfigurationError { reason: reason() }, "configuration error"),
        (FxRuntimeError::CronError { reason: reason() }, "cron error: why"),
        (FxRuntimeError::StreamingError { reason: reason() }, "streaming error: why"),
        (FxRuntimeError::StreamNotFound, "stream not found"),
        (FxRuntimeError::SerializationError { reason: reason() }, "serialization error"),
    ];
    for (fault, text) in texts {
        assert_eq!(fault.message(), text);
    }
    assert_eq!(SqlError::FieldDecode { reason: reason() }.message(), "failed to decode field");
    assert_eq!(SqlError::ColumnGet { reason: reason() }.message(), "failed to get column");
    assert_eq!(SqlError::RowRead { reason: reason() }.message(), "failed to read row");
    assert_eq!(SqlError::QueryRun { reason: reason() }.message(), "failed to run query: why");
    assert_eq!(SqlError::ConnectionOpen { reason: reason() }.message(), "failed to open database connection");
}

#[test]
fn queries_and_migrations_fail_in_words() {
    let rows = || Ok(QueryResult { rows: Vec::new() });
    assert!(api_sql_exec(Ok(()), true, rows()).is_ok());
    assert!(matches!(
        api_sql_exec(Err(s("eof")), true, rows()),
        Err(FxSqlError::SerializationError { reason }) if reason == "failed to decode request: eof"
    ));
    assert!(matches!(api_sql_exec(Ok(()), false, rows()), Err(FxSqlError::BindingNotExists)));
    assert!(matches!(
        api_sql_exec(Ok(()), true, Err(SqlError::QueryRun { reason: s("no such table") })),
        Err(FxSqlError::QueryFailed { reason }) if reason == "failed to run query: no such table"
    ));
    assert!(api_sql_batch(Ok(()), true, Ok(())).is_ok());
    assert!(matches!(
        api_sql_batch(Err(s("eof")), true, Ok(())),
        Err(FxSqlError::SerializationError { reason }) if reason == "failed to decode request: eof"
    ));
    assert!(api_sql_migrate(Ok(()), Ok(())).is_ok());
    assert!(matches!(
        api_sql_migrate(Err(s("eof")), Ok(())),
        Err(FxSqlError::SerializationError { reason }) if reason == "failed to decode migrations request: eof"
    ));
    assert!(matches!(
        api_sql_migrate(Ok(()), Err(s("syntax"))),
        Err(FxSqlError::MigrationFailed { reason }) if reason == "syntax"
    ));
}

#[test]
fn functions_log_where_they_may() {
    let mut fields: Table<String, String> = Table::new();
    fields.insert(s("message"), s("hi"));
    assert!(api_log(false, &id("f"), None).is_none());
    assert!(api_log(true, &id("f"), None).is_none());
    let event = api_log(true, &id("f"), Some((LogLevel::Warn, fields))).unwrap();
    assert!(matches!(event.level, LogEventLevel::Warn));
    assert!(matches!(event.fields.get(&s("message")), Some(EventFieldValue::Text(t)) if t == "hi"));
}

#[test]
fn the_api_answers_each_call_in_kind() {
    let mut storage: Table<String, u8> = Table::new();
    storage.insert(s("cache"), 0);
    let mut databases: Table<String, u8> = Table::new();
    databases.insert(s("db"), 0);
    let call = |call: ApiCall| fx_api_handler(&storage, &databases, call);

    let counted = call(ApiCall::MetricsCounterIncrement { counted: Ok(()) });
    assert!(matches!(counted, (ApiAnswer::MetricsCounterIncrement, None)));
    assert!(matches!(call(ApiCall::Rpc { pushed: Ok(HostPoolIndex(4)) }), (ApiAnswer::Rpc(RpcAnswer::FutureId(4)), Some("rpc"))));
    assert!(matches!(call(ApiCall::Rpc { pushed: Err(s("full")) }), (ApiAnswer::Rpc(RpcAnswer::RuntimeError), None)));
    assert!(matches!(
        call(ApiCall::KvGet { binding: s("nope"), value: None }),
        (ApiAnswer::KvGet(KvGetAnswer::BindingNotFound), None)
    ));
    assert!(matches!(
        call(ApiCall::KvGet { binding: s("cache"), value: None }),
        (ApiAnswer::KvGet(KvGetAnswer::KeyNotFound), None)
    ));
    assert!(matches!(
        call(ApiCall::KvGet { binding: s("cache"), value: Some(vec![1]) }),
        (ApiAnswer::KvGet(KvGetAnswer::Value(_)), Some("kv::get"))
    ));
    assert!(matches!(call(ApiCall::KvSet { binding: s("cache") }), (ApiAnswer::KvSet(KvSetAnswer::Done), Some("kv::set"))));
    assert!(matches!(call(ApiCall::KvSet { binding: s("x") }), (ApiAnswer::KvSet(KvSetAnswer::BindingNotFound), None)));
    let rows = QueryResult { rows: Vec::new() };
    assert!(matches!(
        call(ApiCall::SqlExec { binding: s("db"), result: Ok(rows) }),
        (ApiAnswer::SqlExec(SqlExecAnswer::Rows(_)), Some("sql::exec"))
    ));
    assert!(matches!(
        call(ApiCall::SqlExec { binding: s("db"), result: Err(SqlError::RowRead { reason: s("e") }) }),
        (ApiAnswer::SqlExec(SqlExecAnswer::SqlError { description }), None) if description == "failed to read row"
    ));
    assert!(matches!(
        call(ApiCall::SqlBatch { binding: s("db"), result: Ok(()) }),
        (ApiAnswer::SqlBatch(SqlDoneAnswer::Done), None)
    ));
    assert!(matches!(
        call(ApiCall::SqlMigrate { binding: s("x"), result: Ok(()) }),
        (ApiAnswer::SqlMigrate(SqlDoneAnswer::BindingNotFound), None)
    ));
    assert!(matches!(
        call(ApiCall::SqlMigrate { binding: s("db"), result: Err(s("e")) }),
        (ApiAnswer::SqlMigrate(SqlDoneAnswer::SqlError { description }), None) if description == "e"
    ));
}

#[test]
fn the_host_does_what_functions_ask_for() {
    let mut storage: Table<String, u8> = Table::new();
    storage.insert(s("cache"), 0);
    let mut databases: Table<String, u8> = Table::new();
    databases.insert(s("db"), 0);
    let work = |request: ApiRequest| fx_api_work(&storage, &databases, request);
    let query = |statement: &str| SqlQueryMessage { statement: s(statement), params: vec![SqlValue::Integer(1)] };

    assert!(matches!(
        work(ApiRequest::MetricsCounterIncrement { counter_name: s("c"), tags: Vec::new(), delta: 2 }),
        Ok(ApiWork::Count { counter_name, delta: 2, .. }) if counter_name == "c"
    ));
    assert!(matches!(
        work(ApiRequest::Rpc { function_id: s("f"), method_name: s("m"), argument: vec![9] }),
        Ok(ApiWork::Invoke { function_id, handler, argument })
            if function_id.as_str() == "f" && handler == "m" && argument == vec![9]
    ));
    assert!(matches!(
        work(ApiRequest::KvGet { binding_id: s("cache"), key: vec![1] }),
        Ok(ApiWork::Read { key, .. }) if key == vec![1]
    ));
    assert!(matches!(
        work(ApiRequest::KvGet { binding_id: s("x"), key: vec![1] }),
        Err(ApiAnswer::KvGet(KvGetAnswer::BindingNotFound))
    ));
    assert!(matches!(
        work(ApiRequest::KvSet { binding_id: s("cache"), key: vec![1], value: vec![2] }),
        Ok(ApiWork::Write { value, .. }) if value == vec![2]
    ));
    assert!(matches!(
        work(ApiRequest::KvSet { binding_id: s("x"), key: vec![1], value: vec![2] }),
        Err(ApiAnswer::KvSet(KvSetAnswer::BindingNotFound))
    ));
    assert!(matches!(
        work(ApiRequest::SqlExec { database: s("db"), query: query("select ?") }),
        Ok(ApiWork::Exec { query, .. }) if query.query == "select ?" && query.params.len() == 1
    ));
    assert!(matches!(
        work(ApiRequest::SqlExec { database: s("x"), query: query("q") }),
        Err(ApiAnswer::SqlExec(SqlExecAnswer::BindingNotFound))
    ));
    match work(ApiRequest::SqlBatch { database: s("db"), queries: vec![query("a"), query("b"), query("c")] }) {
        Ok(ApiWork::Batch { queries, .. }) => {
            let statements: Vec<&str> = queries.iter().map(|q| q.query.as_str()).collect();
            assert_eq!(statements, vec!["a", "b", "c"]);
        }
        _ => panic!("expected a batch"),
    }
    assert!(matches!(
        work(ApiRequest::SqlBatch { database: s("x"), queries: Vec::new() }),
        Err(ApiAnswer::SqlBatch(SqlDoneAnswer::BindingNotFound))
    ));
    assert!(matches!(
        work(ApiRequest::SqlMigrate { database: s("db"), migrations: vec![s("m")] }),
        Ok(ApiWork::Migrate { migrations, .. }) if migrations == vec![s("m")]
    ));
    assert!(matches!(
        work(ApiRequest::SqlMigrate { database: s("x"), migrations: Vec::new() }),
        Err(ApiAnswer::SqlMigrate(SqlDoneAnswer::BindingNotFound))
    ));
}

fn tag(name: &str, value: &str) -> (String, String) {
    (s(name), s(value))
}

fn exposed(metrics: &FunctionMetrics, name: &str) -> Vec<u64> {
    let mut values = Vec::new();
    for family in metrics.registry.gather() {
        if family.name() == name {
            for metric in family.get_metric() {
                values.push(metric.get_counter().get_value() as u64);
            }
        }
    }
    values.sort();
    values
}

#[test]
fn counters_of_functions_are_registered_and_counted() {
    let mut metrics = FunctionMetrics::new(prometheus::Registry::new());
    let f = id("my-function");
    let tags = vec![tag("route", "/a")];
    assert!(metrics.tags_fit(&f, "hits", &tags));
    assert!(metrics.counter_increment(&f, "hits", &tags, 2).is_ok());
    assert!(metrics.counter_increment(&f, "hits", &tags, 3).is_ok());
    assert!(metrics.counter_increment(&f, "hits", &vec![tag("route", "/b")], 7).is_ok());
    assert_eq!(exposed(&metrics, "my_function_hits"), vec![5, 7]);
    assert!(metrics.counters.contains_key(&s("my_function_hits_route")));
    assert!(metrics.counter_increment(&f, "plain", &Vec::new(), 1).is_ok());
    assert_eq!(exposed(&metrics, "my_function_plain"), vec![1]);
}

#[test]
fn counters_keep_the_names_of_their_tags() {
    let mut metrics = FunctionMetrics::new(prometheus::Registry::new());
    let f = id("f");
    assert!(metrics.counter_increment(&f, "hits", &vec![tag("a", "1")], 1).is_ok());
    match metrics.counter_increment(&f, "hits", &vec![tag("b", "1")], 1) {
        Err(MetricsError::FailedToRegister { reason }) => {
            assert!(reason.starts_with("failed to register counter in registry: "))
        }
        _ => panic!("expected a failure"),
    }
    match metrics.counter_increment(&f, "bad name", &Vec::new(), 1) {
        Err(MetricsError::FailedToRegister { reason }) => {
            assert!(reason.starts_with("failed to create counter: "))
        }
        _ => panic!("expected a failure"),
    }
    assert!(metrics.counter_increment(&f, "twice", &vec![tag("a", "1"), tag("a", "2")], 1).is_err());
    assert!(metrics.counter_increment(&f, "ab", &vec![tag("xy", "1")], 1).is_ok());
    assert!(!metrics.tags_fit(&f, "ab", &vec![tag("x", "1"), tag("y", "2")]));
    assert_eq!(exposed(&metrics, "f_hits"), vec![1]);
}

#[test]
fn names_that_a_registry_holds_are_refused() {
    let registry = prometheus::Registry::new();
    let held = prometheus::IntCounter::new("f_hits", "held before").unwrap();
    assert!(registry.register(Box::new(held)).is_ok());
    let mut metrics = FunctionMetrics::new(registry);
    match metrics.counter_increment(&id("f"), "hits", &Vec::new(), 1) {
        Err(MetricsError::FailedToRegister { reason }) => {
            assert_eq!(reason, "failed to register counter in registry: AlreadyReg")
        }
        _ => panic!("expected a failure"),
    }
    assert_eq!(metrics.counters.len(), 0);
    assert!(metrics.counter_increment(&id("f"), "misses", &Vec::new(), 1).is_ok());
}

#[test]
fn values_that_read_the_same_are_counted_together() {
    let mut metrics = FunctionMetrics::new(prometheus::Registry::new());
    let f = id("f");
    assert!(metrics.counter_increment(&f, "hits", &vec![tag("a", "xy"), tag("b", "z")], 1).is_ok());
    assert!(metrics.counter_increment(&f, "hits", &vec![tag("a", "x"), tag("b", "yz")], 2).is_ok());
    assert_eq!(exposed(&metrics, "f_hits"), vec![3]);
}

struct Sink {}

impl Queue for Sink {
    fn push(&self, _message: &[u8]) {}
}

#[test]
fn queues_are_owned() {
    BoxStream::new(Sink {}).inner.push(&[1]);
}

#[test]
fn streams_get_numbers_of_their_own() {
    let mut pool: StreamsPoolInner<u8> = StreamsPoolInner::new();
    let first = pool.push(FxStream::HostStream(7));
    let second = pool.push(FxStream::FunctionStream(id("f")));
    assert_eq!((first.0, second.0, pool.len()), (0, 1, 2));
    assert!(matches!(pool.source(&first), StreamSource::Host));
    assert!(matches!(pool.source(&second), StreamSource::Function { index: 1, function_id } if function_id.as_str() == "f"));
    assert!(matches!(pool.source(&HostPoolIndex(9)), StreamSource::NotFound));
    assert!(matches!(pool.remove(&first), Some(FxStream::HostStream(7))));
    assert!(pool.remove(&first).is_none());
    assert_eq!(pool.push(FxStream::HostStream(8)).0, 2);
    assert!(matches!(
        pool.poll_next(&HostPoolIndex(9), Poll::Pending),
        Poll::Ready(Some(Err(FxRuntimeError::StreamNotFound)))
    ));
}

#[test]
fn streams_leave_the_pool_when_they_end() {
    let mut pool: StreamsPool<u8> = StreamsPool::new();
    let index = pool.push(1).unwrap();
    assert!(matches!(pool.poll_next(&index, Poll::Pending), Poll::Pending));
    assert!(matches!(pool.poll_next(&index, Poll::Ready(Some(Ok(vec![5])))), Poll::Ready(Some(Ok(_)))));
    assert_eq!(pool.len().unwrap(), 1);
    assert!(matches!(pool.poll_next(&index, Poll::Ready(None)), Poll::Ready(None)));
    assert_eq!(pool.len().unwrap(), 0);
    assert!(matches!(
        pool.poll_next(&index, Poll::Ready(None)),
        Poll::Ready(Some(Err(FxRuntimeError::StreamNotFound)))
    ));
}

#[test]
fn streams_are_taken_out_to_be_read() {
    let mut pool: StreamsPool<u8> = StreamsPool::new();
    let host = pool.push(1).unwrap();
    let function = pool.push_function_stream(id("f")).unwrap();
    let readable = pool.read(host.0 as i64).unwrap().unwrap();
    assert!(readable.dropped().is_none());
    let readable = pool.read(function.0 as i64).unwrap().unwrap();
    let (owner, index) = readable.dropped().unwrap();
    assert_eq!((owner.as_str(), index), ("f", 1));
    assert!(pool.read(0).unwrap().is_none());
    assert!(pool.read(-1).unwrap().is_none());
    assert!(pool.remove(&host).unwrap().is_none());
}

#[test]
fn a_pool_that_a_thread_gave_out_over_is_not_used() {
    let mut pool: StreamsPool<u8> = StreamsPool::new();
    pool.poisoned = true;
    let said = |err: FxRuntimeError| matches!(err, FxRuntimeError::StreamingError { reason } if reason == LOCK_POISONED);
    assert!(pool.push(1).err().map(said).unwrap());
    assert!(pool.push_function_stream(id("f")).err().map(said).unwrap());
    assert!(pool.remove(&HostPoolIndex(0)).err().map(said).unwrap());
    assert!(pool.read(0).err().map(said).unwrap());
    assert!(pool.len().err().map(said).unwrap());
    match pool.poll_next(&HostPoolIndex(0), Poll::Pending) {
        Poll::Ready(Some(Err(err))) => assert!(said(err)),
        _ => panic!("expected an error"),
    }
}

#[test]
fn modules_are_compiled() {
    let compiled = CraneliftCompiler::new().compiled(Ok(3u8)).unwrap();
    assert_eq!((compiled.module, compiled.metadata.backend.as_str()), (3, "cranelift"));
    assert!(matches!(
        CraneliftCompiler::new().compiled::<u8>(Err(s("bad"))),
        Err(CompilerError::FailedToCompile { reason }) if reason == "bad"
    ));
}

#[test]
fn modules_are_stored_under_the_digest_of_their_code() {
    let compiler = MemoizedCompiler::new();
    let key = compiler.key(b"abc");
    assert_eq!(
        key,
        vec![
            0xba, 0x78, 0x16, 0xbf, 0x8f, 0x01, 0xcf, 0xea, 0x41, 0x41, 0x40, 0xde, 0x5d, 0xae,
            0x22, 0x23, 0xb0, 0x03, 0x61, 0xa3, 0x96, 0x17, 0x7a, 0x9c, 0xb4, 0x10, 0xff, 0x61,
            0xf2, 0x00, 0x15, 0xad
        ]
    );
    assert!(matches!(compiler.compile(b"abc", None), MemoizedStep::Compile { key: k } if k == key));
    assert!(matches!(compiler.compile(b"abc", Some(vec![1])), MemoizedStep::Restore(b) if b == vec![1]));
    let loaded = compiler.load_from_storage_if_available(Some(Ok(1u8))).unwrap().unwrap();
    assert_eq!(compiler.hit(loaded).metadata.backend, "MemoizedCompiler[hit] | unknown");
    assert!(compiler.load_from_storage_if_available::<u8>(None).unwrap().is_none());
    assert!(matches!(
        compiler.load_from_storage_if_available::<u8>(Some(Err(s("short")))),
        Err(CompilerError::FailedToDeserialize { reason }) if reason == "short"
    ));
    let missed = compiler.miss(CraneliftCompiler::new().compiled(Ok(1u8))).unwrap();
    assert_eq!(missed.metadata.backend, "MemoizedCompiler[miss] | cranelift");
    assert!(compiler.miss(CraneliftCompiler::new().compiled::<u8>(Err(s("x")))).is_err());
}
