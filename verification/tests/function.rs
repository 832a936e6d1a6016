use fx_runtime::definitions::bindings::{
    FunctionBindingConfig, KvBindingConfig, SqlBindingConfig, SqlBindingConfigLocation,
};
use fx_runtime::effects::fetch::{FetchResultError, HttpStreamError};
use fx_runtime::effects::kv::{
    KvDelexHandlerError, KvGetHandlerError, KvOperation, KvPublishHandlerError,
    KvSubscriptionHandlerError,
};
use fx_runtime::effects::metrics::FunctionMetricsState;
use fx_runtime::effects::sql::{
    SqlBatchError, SqlMigrationError, SqlQueryError, SqlQueryExecutionError, SqlRow,
    SqlTaskBatchError, SqlTaskMigrationError, SqlValue,
};
use fx_runtime::function::abi::env::{
    fx_env_get_handler, fx_env_len_handler, EnvGetResult, EnvLenResultCode,
};
use fx_runtime::function::abi::fetch::{
    fetch_request_bytes, fx_fetch_handler, try_fx_fetch_handler, FetchPlan, FetchRequestMessage, HeaderField,
    OutgoingBody, RequestBody,
};
use fx_runtime::function::abi::futures::{
    fx_bytes_len_handler, fx_bytes_move_handler, fx_tasks_background_spawn_handler,
    fx_unit_future_poll, result_future_poll, store_serialized, write_result, FuturePollResult,
    ResourceMoveFromHostResult,
};
use fx_runtime::function::abi::http::{
    fx_fetch_request_header_serialize_handler, fx_fetch_result_future_poll,
    fx_fetch_result_serialize, fx_http_body_poll_frame, fx_http_frame_serialize, FetchReplyError,
    FetchResponse, FrameReply,
};
use fx_runtime::function::abi::kv::{
    fx_kv_delex_ifeq_handler, fx_kv_delex_result_serialize, fx_kv_get_handler,
    fx_kv_publish_handler, fx_kv_publish_result_serialize, fx_kv_set_handler,
    fx_kv_set_nx_px_handler, fx_kv_subscribe_handler, fx_kv_subscription_stream_poll_next,
    kv_delex_outcome, kv_get_outcome, kv_publish_outcome, KvDelexReply, KvPublishReply,
};
use fx_runtime::function::abi::metrics::{
    counter_register_bytes, fx_metrics_counter_increment_handler,
    fx_metrics_counter_register_handler, CounterRegisterRequest, MetricsCounterRegisterError,
};
use fx_runtime::function::abi::sql::{
    fx_migration_result_serialize, fx_sql_batch_handler, fx_sql_batch_result_future_poll,
    fx_sql_batch_result_serialize, fx_sql_exec_handler, fx_sql_migrate_handler,
    fx_sql_query_result_future_poll, fx_sql_query_result_serialize, sql_batch_outcome,
    sql_exec_outcome, sql_migrate_outcome, sql_request_bytes,
};
use fx_runtime::function::abi::system::{fill_drawn, fx_random_handler, fx_time_handler};
use fx_runtime::function::deployment::{
    imported_functions, link_error, placeholder_imports, DeploymentInitError, FetchRequestHeader,
    FunctionDeployment, FunctionDeploymentHandleRequestError, Linked, ModuleImport,
    RequestHandleFuture,
};
use fx_runtime::function::id::{FunctionDeploymentId, FunctionId};
use fx_runtime::function::instance::{
    background_task_poll, call_error, check_instance, expected_exports, function_response,
    function_response_poll, http_body_frame_poll, invoke_http_trigger, BackgroundTaskPollError,
    FramePollRecord, FunctionFrame, FunctionFramePollError, FunctionFramePollFuture,
    FunctionInstanceInitError, FunctionInstanceState, FunctionResponsePollError,
    HttpBodyFramePollError, InstanceBindings, InvokeError,
    RawHeader, ResponseBody, ResponseBodySource, ResponseLocation, ResponseMessage,
    ResponsePollRecord, StoreLimits, WasmFunctionCallError,
};
use fx_runtime::function::memory::{
    copy_into, FunctionMemoryAccessError, FunctionMemoryError, FunctionMemoryGetStringError,
    FunctionMemoryView, FunctionMemoryViewMut,
};
use fx_runtime::function::resource::FunctionStreamResourceId;
use fx_runtime::poll::Poll;
use fx_runtime::resources::future::{FunctionBackgroundTask, FunctionResponseFuture};
use fx_runtime::resources::resource::{
    FunctionResourceId, OwnedFunctionResourceId, ResourceId, ResourceTable,
};
use fx_runtime::resources::serialize::{
    DeserializeFunctionResource, ResourceCall, SerializedFunctionResource,
};
use fx_runtime::table::Table;
use fx_runtime::web::HttpMethod;

fn s(text: &str) -> String {
    text.to_string()
}

#[derive(Debug, PartialEq)]
struct Note {
    text: String,
    instance: u8,
}

impl DeserializeFunctionResource<Vec<usize>, u8> for Note {
    type Error = usize;

    fn deserialize(resource_set: &mut Vec<usize>, resource: &[u8], instance: u8) -> Result<Self, usize> {
        resource_set.push(resource.len());
        match std::str::from_utf8(resource) {
            Ok(text) => Ok(Note { text: text.to_string(), instance }),
            Err(err) => Err(err.valid_up_to()),
        }
    }
}

#[test]
fn resources_of_functions_are_moved_once_or_dropped() {
    let mut calls = Vec::new();
    let first = SerializedFunctionResource::new(2u8, FunctionResourceId::new(6));
    let second = SerializedFunctionResource::new(2u8, FunctionResourceId::new(7));
    assert!(calls.is_empty());
    let moving = first.move_to_host(&mut calls);
    second.dropped(&mut calls);
    let expected = vec![
        ResourceCall::MoveToHost(FunctionResourceId::new(6)),
        ResourceCall::Drop(FunctionResourceId::new(7)),
    ];
    assert_eq!(calls, expected);
    let mut set = Vec::new();
    let note: Result<Note, usize> = moving.finish(&mut set, b"note");
    assert_eq!(note, Ok(Note { text: s("note"), instance: 2 }));
    let third = SerializedFunctionResource::new(3u8, FunctionResourceId::new(8));
    let note: Result<Note, usize> = third.move_to_host(&mut calls).finish(&mut set, &[97, 255]);
    assert_eq!(note, Err(1));
    assert_eq!(set, vec![4, 2]);
    assert_eq!(calls.len(), 3);
}

#[test]
fn resources_come_and_go() {
    let mut table: ResourceTable<String> = ResourceTable::new();
    let first = table.insert(s("a"));
    let second = table.insert(s("b"));
    assert_ne!(first, second);
    assert_eq!(table.get(first), Some(&s("a")));
    if let Some(value) = table.get_mut(second) {
        value.push('!');
    }
    assert_eq!(table.remove(second), Some(s("b!")));
    assert_eq!(table.remove(second), None);
    assert_eq!(table.len(), 1);
    let third = table.insert(s("c"));
    assert_ne!(third, second);
    assert!(table.get(second).is_none());
    assert_eq!(table.get(third), Some(&s("c")));
}

#[test]
fn ids_keep_their_numbers() {
    assert_eq!(ResourceId::from(7).as_u64(), 7);
    assert_eq!(FunctionResourceId::new(8).as_u64(), 8);
    assert_eq!(FunctionStreamResourceId::from(9).as_u64(), 9);
    assert_eq!(FunctionDeploymentId::new(3).id, 3);
    assert_eq!(String::from(FunctionId::new(s("f"))), "f");
    assert_eq!(String::from(&FunctionId::new(s("g"))), "g");
    assert!(FunctionId::new(s("a")) == FunctionId::new(s("a")));
    assert!(FunctionId::new(s("a")) != FunctionId::new(s("b")));
}

#[test]
fn owned_resources_are_released_once() {
    let mut owned = OwnedFunctionResourceId::new("instance", FunctionResourceId::new(4));
    assert_eq!(owned.release(), Some(("instance", FunctionResourceId::new(4))));
    assert_eq!(owned.release(), None);
    let owned = OwnedFunctionResourceId::new(1u8, FunctionResourceId::new(5));
    assert_eq!(owned.consume(), (1, FunctionResourceId::new(5)));
}

#[test]
fn memory_is_read_within_its_bounds() {
    let bytes = [104u8, 105, 0xff, 1];
    let view = FunctionMemoryView { view: &bytes };
    assert_eq!(view.slice(1, 2).unwrap(), &[105, 0xff]);
    assert_eq!(view.vec_clone(0, 4).unwrap(), bytes.to_vec());
    assert_eq!(view.str_ref(0, 2).unwrap(), "hi");
    assert_eq!(view.slice(3, 2).err(), Some(FunctionMemoryAccessError::OutOfBounds));
    assert_eq!(view.slice(u64::MAX, 2).err(), Some(FunctionMemoryAccessError::OutOfBounds));
    assert_eq!(view.str_ref(2, 1).err(), Some(FunctionMemoryGetStringError::FailedToDecode));
    assert_eq!(view.str_ref(4, 1).err(), Some(FunctionMemoryGetStringError::OutOfBounds));
}

#[test]
fn what_is_written_to_memory_is_read_back() {
    let mut bytes = [0u8; 6];
    assert!(copy_into(&mut bytes, 2, &[7, 8]).is_ok());
    assert_eq!(FunctionMemoryView { view: &bytes }.vec_clone(2, 2).unwrap(), vec![7, 8]);
    assert_eq!(bytes, [0, 0, 7, 8, 0, 0]);
    assert!(copy_into(&mut bytes, 5, &[1, 2]).is_err());
    let mut view = FunctionMemoryViewMut { view: &mut bytes };
    assert!(view.copy_from_slice(0, 2, &[1, 2]).is_ok());
    assert_eq!(bytes, [1, 2, 7, 8, 0, 0]);
    write_result(&mut bytes, 4, &[9, 9]);
    assert_eq!(bytes, [1, 2, 7, 8, 9, 9]);
}

#[test]
fn traps_are_panics_or_crashes() {
    assert_eq!(call_error(true), WasmFunctionCallError::Panicked);
    assert_eq!(call_error(false), WasmFunctionCallError::Crashed);
}

#[test]
fn instances_need_their_exports() {
    assert_eq!(expected_exports()[4], "__fx_handler");
    assert_eq!(check_instance(true, true, &vec![true; 5]), Ok(()));
    assert_eq!(check_instance(false, true, &vec![]), Err(FunctionInstanceInitError::UnknownError));
    assert_eq!(check_instance(true, false, &vec![]), Err(FunctionInstanceInitError::MissingMemory));
    assert_eq!(
        check_instance(true, true, &vec![true, false]),
        Err(FunctionInstanceInitError::MissingExport)
    );
}

fn frame(tag: u64) -> FramePollRecord {
    FramePollRecord { tag, frame_bytes_resource_id: 3, frame_bytes_addr: 1, frame_bytes_len: 2 }
}

#[test]
fn fresh_instances_hold_nothing() {
    let bindings = || InstanceBindings::new(Table::new(), Table::new(), Table::new(), kv_bindings(), Table::new());
    let mut state = FunctionInstanceState::new(Some(65536), FunctionId::new(s("f")), bindings());
    assert_eq!(state.limits, StoreLimits { memory_size: Some(65536), memories: Some(1) });
    assert!(state.tasks_background.is_empty() && state.metrics.flush_delta().is_empty());
    assert_eq!(state.bindings.kv.len(), 1);
    let state = FunctionInstanceState::new(None, FunctionId::new(s("f")), bindings());
    assert_eq!(state.limits, StoreLimits { memory_size: None, memories: None });
}

#[test]
fn frames_are_polled() {
    assert!(matches!(http_body_frame_poll(Ok(Some(frame(2))), true), Poll::Pending));
    assert!(matches!(http_body_frame_poll(Ok(Some(frame(0))), true), Poll::Ready(Ok(None))));
    match http_body_frame_poll(Ok(Some(frame(1))), true) {
        Poll::Ready(Ok(Some(frame))) => assert_eq!(frame.as_ref(&[5, 6, 7]), &[6, 7]),
        _ => panic!("expected a frame"),
    }
    assert!(matches!(
        http_body_frame_poll(Ok(Some(frame(9))), true),
        Poll::Ready(Err(HttpBodyFramePollError::AbiError))
    ));
    assert!(matches!(http_body_frame_poll(Ok(None), true), Poll::Ready(Err(HttpBodyFramePollError::AbiError))));
    assert!(matches!(
        http_body_frame_poll(Err(WasmFunctionCallError::Crashed), true),
        Poll::Ready(Err(HttpBodyFramePollError::FunctionCrashed))
    ));
    let whole = FunctionFrame { resource_id: FunctionResourceId::new(1), ptr: 0, len: 1 };
    assert_eq!(whole.as_ref(&[4]), &[4]);
}

#[test]
fn frame_futures_call_one_at_a_time() {
    let mut future: FunctionFramePollFuture<u8> = FunctionFramePollFuture::new();
    assert!(future.needs_call());
    future.start_call(1);
    assert!(!future.needs_call());
    assert!(matches!(future.poll::<u8>(Poll::Pending), Poll::Pending));
    assert!(!future.needs_call());
    assert!(matches!(future.poll::<u8>(Poll::Ready(Poll::Pending)), Poll::Pending));
    assert!(future.needs_call());
    future.start_call(2);
    assert!(matches!(future.poll(Poll::Ready(Poll::Ready(Ok(5u8)))), Poll::Ready(Ok(5))));
    assert_eq!(
        FunctionFramePollError::from(HttpBodyFramePollError::FunctionPanicked),
        FunctionFramePollError::FunctionPanicked
    );
}

#[test]
fn triggers_invoke_handlers() {
    assert_eq!(invoke_http_trigger(None), Err(InvokeError::Busy));
    assert_eq!(invoke_http_trigger(Some(Ok(3))), Ok(FunctionResourceId::new(3)));
    assert_eq!(
        invoke_http_trigger(Some(Err(WasmFunctionCallError::Panicked))),
        Err(InvokeError::Panicked)
    );
}

#[test]
fn background_tasks_are_polled_until_done() {
    assert!(matches!(background_task_poll(Ok(1)), Ok(Poll::Pending)));
    assert!(matches!(background_task_poll(Ok(0)), Ok(Poll::Ready(()))));
    assert!(matches!(background_task_poll(Ok(2)), Err(BackgroundTaskPollError::AbiError)));
    let task = FunctionBackgroundTask::new(FunctionResourceId::new(1));
    let mut panicked = false;
    assert!(task.poll(&mut panicked, Poll::Ready(Ok(Poll::Pending))).call_again);
    assert!(!task.poll(&mut panicked, Poll::Ready(Ok(Poll::Ready(())))).call_again);
    let _ = task.poll(&mut panicked, Poll::Ready(Err(BackgroundTaskPollError::AbiError)));
    assert!(!panicked);
    let _ = task.poll(&mut panicked, Poll::Ready(Err(BackgroundTaskPollError::FunctionCrashed)));
    assert!(panicked);
}

#[test]
fn responses_are_polled() {
    let record = |tag| ResponsePollRecord { tag, response_bytes_addr: 5, response_bytes_len: 6 };
    assert!(matches!(function_response_poll(Ok(Some(record(1)))), Poll::Pending));
    assert!(matches!(
        function_response_poll(Ok(Some(record(0)))),
        Poll::Ready(Ok(ResponseLocation { addr: 5, len: 6 }))
    ));
    assert!(matches!(function_response_poll(Ok(Some(record(7)))), Poll::Ready(Err(FunctionResponsePollError::AbiError))));
    assert!(matches!(function_response_poll(Ok(None)), Poll::Ready(Err(FunctionResponsePollError::AbiError))));
    let wait = FunctionResponseFuture::new(FunctionResourceId::new(1));
    let mut panicked = false;
    let step = wait.poll::<u8>(&mut panicked, Poll::Ready(Poll::Ready(Err(FunctionResponsePollError::FunctionPanicked))));
    assert!(panicked && !step.call_again);
}

fn raw(name: &[u8], value: &[u8]) -> RawHeader {
    RawHeader { name: Some(name.to_vec()), value: Some(value.to_vec()) }
}

fn message(status: u16, headers: Vec<RawHeader>, body: ResponseBody) -> Option<ResponseMessage> {
    Some(ResponseMessage { status, headers: Some(headers), body: Some(body) })
}

#[test]
fn responses_are_checked() {
    let mut bodies: ResourceTable<u8> = ResourceTable::new();
    let held = bodies.insert(42);
    let headers = vec![raw(b"Content-Type", b"text/plain"), raw(b"content-type", b"text/html")];
    let response = function_response(message(201, headers, ResponseBody::HostResourceId(held)), &mut bodies, true).unwrap();
    assert_eq!(response.status, 201);
    assert_eq!(response.headers.get_all("content-type").iter().count(), 1);
    assert_eq!(response.headers.get("content-type").unwrap().to_str().unwrap(), "text/html");
    assert!(matches!(response.body, ResponseBodySource::Host(42)));
    let stream = || ResponseBody::FunctionResourceId(8);
    let mut failed = |message, alive| function_response::<u8>(message, &mut bodies, alive).err();
    assert_eq!(failed(None, true), Some(FunctionResponsePollError::FailedToDeserialize));
    assert_eq!(failed(message(99, vec![], stream()), true), Some(FunctionResponsePollError::InvalidStatusCode));
    assert_eq!(
        failed(message(200, vec![raw(b"bad name", b"x")], stream()), true),
        Some(FunctionResponsePollError::InvalidHeaders)
    );
    assert_eq!(
        failed(message(200, vec![raw(b"x", b"a\nb")], stream()), true),
        Some(FunctionResponsePollError::InvalidHeaders)
    );
    assert_eq!(failed(message(200, vec![], stream()), false), Some(FunctionResponsePollError::AssertionError));
    assert_eq!(
        failed(message(200, vec![], ResponseBody::HostResourceId(held)), true),
        Some(FunctionResponsePollError::HostResourceNotFound)
    );
}

#[test]
fn modules_are_linked() {
    assert_eq!(imported_functions().len(), 40);
    assert_eq!(imported_functions()[8], "fx_fetch");
    let import = |module: &str, is_function| ModuleImport { module: s(module), name: s("n"), is_function };
    assert_eq!(
        placeholder_imports(&vec![import("fx", true), import("env", true), import("env", false), import("wbg", true)]),
        vec![1, 3]
    );
    assert!(matches!(link_error(true, s("x")), DeploymentInitError::MissingImport));
    assert!(matches!(
        link_error(false, s("failed: incompatible import type for `fx`")),
        DeploymentInitError::IncompatibleImport { details } if details == "failed: incompatible import type for `fx`"
    ));
    assert!(matches!(link_error(false, s("other")), DeploymentInitError::UnknownInstantiationError));
    assert!(matches!(
        DeploymentInitError::from(FunctionInstanceInitError::MissingMemory),
        DeploymentInitError::MissingMemory
    ));
}

fn header() -> FetchRequestHeader {
    FetchRequestHeader { method: HttpMethod::Get, uri: s("/"), headers: Vec::new(), body: None }
}

fn deployed(instance: u8) -> FunctionDeployment<u8> {
    match FunctionDeployment::new(FunctionId::new(s("f")), Linked::Done, Ok(instance)) {
        Ok(deployment) => deployment,
        Err(_) => panic!("expected a deployment"),
    }
}

#[test]
fn modules_that_are_not_linked_are_not_deployed() {
    let deploy = |linked, made: Result<u8, FunctionInstanceInitError>| {
        FunctionDeployment::new(FunctionId::new(s("f")), linked, made).err()
    };
    assert!(matches!(deploy(Linked::HostFunctionRefused, Ok(1)), Some(DeploymentInitError::AssertionError)));
    assert!(matches!(
        deploy(Linked::PlaceholderRefused, Ok(1)),
        Some(DeploymentInitError::UnknownInstantiationError)
    ));
    let failed = Linked::Failed { unknown_import: true, message: s("unknown import") };
    assert!(matches!(deploy(failed, Ok(1)), Some(DeploymentInitError::MissingImport)));
    assert!(matches!(
        deploy(Linked::Done, Err(FunctionInstanceInitError::MissingExport)),
        Some(DeploymentInitError::MissingExport)
    ));
    assert!(matches!(
        deploy(Linked::Done, Err(FunctionInstanceInitError::InternalRuntimeAssertionError)),
        Some(DeploymentInitError::AssertionError)
    ));
    assert!(matches!(
        deploy(Linked::Done, Err(FunctionInstanceInitError::UnknownError)),
        Some(DeploymentInitError::UnknownInstantiationError)
    ));
    assert!(deploy(Linked::Done, Ok(1)).is_none());
}

#[test]
fn requests_go_through_a_deployment() {
    let mut deployment = deployed(1);
    let mut headers = ResourceTable::new();
    let mut bodies: ResourceTable<u8> = ResourceTable::new();
    let mut request = RequestHandleFuture::new();
    assert!(!request.needs_instance(&deployment));
    assert_eq!(request.instance_ready(&mut deployment, None), Ok(()));
    assert_eq!(
        request.store_request(false, &mut headers, &mut bodies, header(), None),
        Err(FunctionDeploymentHandleRequestError::RuntimeTimeout)
    );
    let id = request.store_request(true, &mut headers, &mut bodies, header(), Some(5)).unwrap();
    let stored = fx_fetch_request_header_serialize_handler(&mut headers, id);
    assert_eq!(bodies.get(stored.body.unwrap()), Some(&5));
    let response = request.invoked(&mut deployment.has_panicked, Ok(FunctionResourceId::new(9))).unwrap();
    assert_eq!(response.resource_id.id, 9);
    request.responded();
    let mut spawned = Vec::new();
    fx_tasks_background_spawn_handler(&mut spawned, 4);
    fx_tasks_background_spawn_handler(&mut spawned, 6);
    let tasks = request.spawn_background_tasks(&mut spawned);
    assert_eq!(tasks.iter().map(|t| t.resource_id.id).collect::<Vec<u64>>(), vec![4, 6]);
    assert!(spawned.is_empty());
    assert_eq!(request.finish(Ok(200)), Ok(200));
}

#[test]
fn a_panic_has_the_next_request_get_a_new_instance() {
    let mut deployment = deployed(1);
    let mut headers = ResourceTable::new();
    let mut bodies: ResourceTable<u8> = ResourceTable::new();
    let mut request = RequestHandleFuture::new();
    let _ = request.instance_ready(&mut deployment, None);
    let _ = request.store_request(true, &mut headers, &mut bodies, header(), None);
    assert!(matches!(
        request.invoked(&mut deployment.has_panicked, Err(InvokeError::Panicked)),
        Err(FunctionDeploymentHandleRequestError::FunctionPanicked)
    ));
    let mut next = RequestHandleFuture::new();
    assert!(next.needs_instance(&deployment));
    assert_eq!(
        next.instance_ready(&mut deployment, Some(Err(FunctionInstanceInitError::MissingExport))),
        Err(FunctionDeploymentHandleRequestError::FunctionInstantiationError)
    );
    assert_eq!(next.instance_ready(&mut deployment, Some(Ok(2))), Ok(()));
    assert_eq!((deployment.instance, deployment.has_panicked), (2, false));
    assert_eq!(
        FunctionDeploymentHandleRequestError::from(InvokeError::Busy),
        FunctionDeploymentHandleRequestError::FunctionBusy
    );
}

#[test]
fn variables_are_handed_to_functions() {
    let mut env = Table::new();
    env.insert(s("KEY"), s("välue"));
    let mut memory = *b"KEYKE\xff.........";
    assert_eq!(fx_env_len_handler(Ok(&memory), &env, 0, 3), (EnvLenResultCode::Done, Some(6)));
    assert_eq!(fx_env_len_handler(Ok(&memory), &env, 0, 2), (EnvLenResultCode::NotFound, None));
    assert_eq!(fx_env_len_handler(Ok(&memory), &env, 5, 1), (EnvLenResultCode::BadRequest, None));
    assert_eq!(fx_env_len_handler(Ok(&memory), &env, 0, 99), (EnvLenResultCode::FailedToReadRequest, None));
    assert_eq!(
        fx_env_len_handler(Err(FunctionMemoryError::MemoryNotMemory), &env, 0, 3),
        (EnvLenResultCode::FailedToReadRequest, None)
    );
    assert_eq!(fx_env_get_handler(Ok(&mut memory), &env, 0, 3, 12), EnvGetResult::FailedToWriteValue);
    assert_eq!(fx_env_get_handler(Ok(&mut memory), &env, 0, 3, 6), EnvGetResult::Done);
    assert_eq!(&memory[6..12], "välue".as_bytes());
    assert_eq!(fx_env_get_handler(Ok(&mut memory), &env, 0, 2, 6), EnvGetResult::NotFound);
    assert_eq!(fx_env_get_handler(Ok(&mut memory), &env, 5, 1, 6), EnvGetResult::BadRequest);
}

fn field(name: &str, value: &str) -> HeaderField {
    HeaderField { name: Some(s(name)), value: Some(s(value)) }
}

fn request(uri: &str, headers: Vec<HeaderField>, body: RequestBody) -> Result<FetchRequestMessage, FetchResultError> {
    Ok(FetchRequestMessage {
        method: Some(HttpMethod::Post),
        uri: Some(s(uri)),
        headers: Some(headers),
        body: Some(body),
    })
}

#[test]
fn requests_of_functions_are_routed() {
    let mut functions = Table::new();
    functions.insert(s("other.local"), FunctionBindingConfig { function_id: FunctionId::new(s("other")) });
    let mut bodies: ResourceTable<u8> = ResourceTable::new();
    let held = bodies.insert(7);
    let mut plan = |message| fx_fetch_handler(message, &functions, &mut bodies, true);

    let headers = vec![field("X-Request-Id", "r1"), field("accept", "a"), field("Accept", "b")];
    match plan(request("http://OTHER.local/x", headers, RequestBody::Empty)) {
        FetchPlan::Invoke { function_id, request } => {
            assert_eq!(function_id.as_str(), "other");
            assert_eq!(request.uri, "http://OTHER.local/x");
            assert_eq!(request.request_id, Some(s("r1")));
            assert_eq!(request.headers.get_all("accept").iter().count(), 2);
        }
        _ => panic!("expected an invocation"),
    }
    assert!(matches!(
        plan(request("http://kv.fx.internal/get", vec![], RequestBody::Bytes(Some(vec![1])))),
        FetchPlan::Kv { body: OutgoingBody::Bytes(b), .. } if b == vec![1]
    ));
    assert!(matches!(
        plan(request("https://example.com/", vec![], RequestBody::HostResource(held))),
        FetchPlan::External { body: OutgoingBody::Host(7), .. }
    ));
    let failed = |plan: FetchPlan<u8>| match plan {
        FetchPlan::Fail(err) => err,
        _ => panic!("expected a failure"),
    };
    assert_eq!(failed(plan(Err(FetchResultError::FailedToReadRequest))), FetchResultError::FailedToReadRequest);
    assert_eq!(failed(plan(request("/no/host", vec![], RequestBody::Empty))), FetchResultError::BadRequest);
    assert_eq!(failed(plan(request("http://a b/", vec![], RequestBody::Empty))), FetchResultError::BadRequest);
    assert_eq!(
        failed(plan(request("http://e.com/", vec![field("bad name", "v")], RequestBody::Empty))),
        FetchResultError::BadRequest
    );
    assert_eq!(
        failed(plan(request("http://e.com/", vec![], RequestBody::HostResource(held)))),
        FetchResultError::BodyHostResourceIdNotFound
    );
    assert_eq!(
        failed(fx_fetch_handler(request("http://e.com/", vec![], RequestBody::FunctionStream(1)), &functions, &mut bodies, false)),
        FetchResultError::InternalRuntimeAssertionError
    );
    let mut plan = |message| fx_fetch_handler(message, &functions, &mut bodies, true);
    assert_eq!(
        failed(plan(request("example.com", vec![], RequestBody::Empty))),
        FetchResultError::InternalRuntimeAssertionError
    );
    assert!(matches!(plan(request("other.local", vec![], RequestBody::Empty)), FetchPlan::Invoke { .. }));
    assert!(matches!(plan(request("kv.fx.internal", vec![], RequestBody::Empty)), FetchPlan::Kv { .. }));
    assert_eq!(fetch_request_bytes(Some(&[1, 2, 3]), 1, 2), Ok(&[2u8, 3][..]));
    assert_eq!(fetch_request_bytes(None, 1, 2), Err(FetchResultError::FailedToReadRequest));
}

#[test]
fn long_lists_of_headers_are_taken() {
    let functions: Table<String, FunctionBindingConfig> = Table::new();
    let mut bodies: ResourceTable<u8> = ResourceTable::new();
    let headers = (0..6553).map(|i| field(&format!("x-header-{i}"), "v")).collect();
    match fx_fetch_handler(request("http://e.com/", headers, RequestBody::Empty), &functions, &mut bodies, true) {
        FetchPlan::External { request, .. } => assert_eq!(request.headers.len(), 6553),
        _ => panic!("expected a request to the network"),
    }
    let headers = (0..6553).map(|i| raw(format!("x-header-{i}").as_bytes(), b"v")).collect();
    let response = function_response(message(200, headers, ResponseBody::FunctionResourceId(1)), &mut bodies, true);
    assert_eq!(response.unwrap().headers.len(), 6553);
}

#[test]
fn requests_with_too_many_headers_are_left_alone() {
    let functions: Table<String, FunctionBindingConfig> = Table::new();
    let mut bodies: ResourceTable<u8> = ResourceTable::new();
    let held = bodies.insert(7);
    let many = || -> Vec<HeaderField> { (0..6554).map(|i| field(&format!("x-header-{i}"), "v")).collect() };
    let body = || RequestBody::HostResource(held);
    assert!(try_fx_fetch_handler(request("http://e.com/", many(), body()), &functions, &mut bodies, true).is_none());
    assert_eq!(bodies.len(), 1);
    let mut bad = many();
    bad.insert(2, field("bad name", "v"));
    assert!(matches!(
        try_fx_fetch_handler(request("http://e.com/", bad, RequestBody::Empty), &functions, &mut bodies, true),
        Some(FetchPlan::Fail(FetchResultError::BadRequest))
    ));
    assert!(matches!(
        try_fx_fetch_handler(request("/no/host", many(), RequestBody::Empty), &functions, &mut bodies, true),
        Some(FetchPlan::Fail(FetchResultError::BadRequest))
    ));
    let same = (0..7000).map(|_| field("x-header", "v")).collect();
    assert!(matches!(
        try_fx_fetch_handler(request("http://e.com/", same, body()), &functions, &mut bodies, true),
        Some(FetchPlan::External { request, .. }) if request.headers.len() == 7000
    ));
    assert_eq!(bodies.len(), 0);
}

#[test]
fn operations_leave_results() {
    let mut operations: ResourceTable<&str> = ResourceTable::new();
    let mut results: ResourceTable<u8> = ResourceTable::new();
    let id = operations.insert("sleep");
    assert_eq!(
        result_future_poll(&mut operations, &mut results, id, Poll::Pending),
        FuturePollResult { tag: 1, resource_id: 0 }
    );
    let told = result_future_poll(&mut operations, &mut results, id, Poll::Ready(9));
    assert_eq!(told.tag, 0);
    assert_eq!(results.get(told.resource_id), Some(&9));
    assert_eq!(operations.len(), 0);
    let id = operations.insert("unit");
    assert_eq!(fx_unit_future_poll(&mut operations, id, Poll::Pending), 1);
    assert_eq!(fx_unit_future_poll(&mut operations, id, Poll::Ready(())), 0);
    assert_eq!(operations.len(), 0);
}

#[test]
fn bytes_wait_for_the_function() {
    let mut bytes = ResourceTable::new();
    let told = store_serialized(&mut bytes, vec![1, 2, 3]);
    assert_eq!(told.bytes_length, 3);
    assert_eq!(fx_bytes_len_handler(&bytes, told.bytes_resource_id), 3);
    let mut memory = [0u8; 5];
    assert_eq!(
        fx_bytes_move_handler(&mut bytes, told.bytes_resource_id, Ok(&mut memory), 1),
        ResourceMoveFromHostResult::Done
    );
    assert_eq!(memory, [0, 1, 2, 3, 0]);
    assert_eq!(bytes.len(), 0);
    let told = store_serialized(&mut bytes, vec![1, 2, 3]);
    assert_eq!(
        fx_bytes_move_handler(&mut bytes, told.bytes_resource_id, Ok(&mut memory), 4),
        ResourceMoveFromHostResult::ArgumentOutOfMemoryBounds
    );
    let told = store_serialized(&mut bytes, vec![]);
    assert_eq!(
        fx_bytes_move_handler(&mut bytes, told.bytes_resource_id, Err(FunctionMemoryError::MemoryNotFound), 0),
        ResourceMoveFromHostResult::FailedToAccessMemory
    );
}

#[test]
fn responses_are_handed_to_functions() {
    let mut operations: ResourceTable<u8> = ResourceTable::new();
    let mut results = ResourceTable::new();
    let mut bodies: ResourceTable<u8> = ResourceTable::new();
    let id = operations.insert(0);
    let response = FetchResponse { status: 204, headers: vec![(s("etag"), b"x".to_vec())], body: 3u8 };
    let told = fx_fetch_result_future_poll(&mut operations, &mut results, id, Poll::Ready(Ok(response)));
    let result = fx_fetch_result_serialize(&mut results, &mut bodies, told.resource_id).unwrap();
    assert_eq!(result.parts.status, 204);
    assert_eq!(result.parts.headers, vec![(s("etag"), s("x"))]);
    assert_eq!(bodies.get(result.body), Some(&3));
    let id = results.insert(Err(FetchResultError::ConnectionTimeout));
    assert!(matches!(
        fx_fetch_result_serialize(&mut results, &mut bodies, id),
        Err(FetchReplyError::ConnectionTimeout)
    ));
}

#[test]
fn bodies_are_handed_over_in_frames() {
    let mut frames = ResourceTable::new();
    assert_eq!(fx_http_body_poll_frame(&mut frames, Poll::Pending).tag, 1);
    let told = fx_http_body_poll_frame(&mut frames, Poll::Ready(Some(Ok(vec![8]))));
    assert_eq!(told.tag, 0);
    assert!(matches!(fx_http_frame_serialize(&mut frames, told.resource_id), Some(FrameReply::Bytes(b)) if b == vec![8]));
    let told = fx_http_body_poll_frame(&mut frames, Poll::Ready(None));
    assert!(matches!(fx_http_frame_serialize(&mut frames, told.resource_id), Some(FrameReply::StreamEnd)));
    let _ = HttpStreamError::RequestBodyStreamError;
}

fn kv_bindings() -> Table<String, KvBindingConfig> {
    let mut bindings = Table::new();
    bindings.insert(s("cache"), KvBindingConfig { namespace: s("ns") });
    bindings
}

#[test]
fn functions_read_and_set_keys() {
    let bindings = kv_bindings();
    let view: &[u8] = b"cachekeyvalue";
    let message = fx_kv_get_handler(Ok(view), &bindings, 0, 5, 5, 3).unwrap();
    assert_eq!(message.namespace, "ns");
    assert!(matches!(message.operation, KvOperation::Get { key } if key == b"key"));
    let failed = |view: Result<&[u8], FunctionMemoryError>, len, key_len| {
        fx_kv_get_handler(view, &bindings, 0, len, 5, key_len).err()
    };
    assert_eq!(failed(Ok(view), 4, 3), Some(KvGetHandlerError::BindingNotFound));
    assert_eq!(failed(Ok(view), 5, 99), Some(KvGetHandlerError::FailedToReadRequest));
    assert_eq!(failed(Ok(&[0xff; 9]), 1, 1), Some(KvGetHandlerError::BadRequest));
    assert_eq!(failed(Err(FunctionMemoryError::MemoryNotFound), 5, 3), Some(KvGetHandlerError::FailedToReadRequest));
    assert_eq!(kv_get_outcome(None), Err(KvGetHandlerError::RuntimeShutdown));
    assert_eq!(kv_get_outcome(Some(None)), Err(KvGetHandlerError::KeyNotFound));
    assert_eq!(kv_get_outcome(Some(Some(vec![1]))), Ok(vec![1]));

    let set = |nx, px| match fx_kv_set_nx_px_handler(view, &bindings, (0, 5), (5, 3), (8, 5), nx, px).operation {
        KvOperation::SetKey(request) => request,
        _ => panic!("expected a request to set"),
    };
    let request = set(2, 40);
    assert_eq!((request.key, request.value, request.nx, request.px_ms), (b"key".to_vec(), b"value".to_vec(), true, Some(40)));
    assert_eq!(set(0, -1).px_ms, None);
    assert!(matches!(
        fx_kv_set_handler(view, &bindings, (0, 5), (5, 3), (8, 5)).operation,
        KvOperation::SetKey(r) if !r.nx && r.px_ms.is_none()
    ));
}

#[test]
fn functions_delete_keys() {
    let bindings = kv_bindings();
    let view: &[u8] = b"cachekeyvalue";
    let message = fx_kv_delex_ifeq_handler(Ok(view), &bindings, (0, 5), (5, 3), (8, 5)).unwrap();
    assert!(matches!(message.operation, KvOperation::Delex(r) if r.key == b"key" && r.ifeq == b"value"));
    assert_eq!(
        fx_kv_delex_ifeq_handler(Ok(view), &bindings, (0, 2), (5, 3), (8, 5)).err(),
        Some(KvDelexHandlerError::BindingNotFound)
    );
    assert_eq!(kv_delex_outcome(true), Ok(()));
    let mut results = ResourceTable::new();
    let id = results.insert(kv_delex_outcome(false));
    assert_eq!(fx_kv_delex_result_serialize(&mut results, id), KvDelexReply::RuntimeShutdown);
    assert_eq!(fx_kv_delex_result_serialize(&mut results, id), KvDelexReply::ResourceNotFound);
}

#[test]
fn functions_subscribe_and_publish() {
    let bindings = kv_bindings();
    let view: &[u8] = b"cachechdata";
    assert!(matches!(
        fx_kv_subscribe_handler(Ok(view), &bindings, (0, 5), (5, 2)).unwrap().operation,
        KvOperation::Subscribe { channel } if channel == b"ch"
    ));
    let mut bytes = ResourceTable::new();
    let told = fx_kv_subscription_stream_poll_next(Ok(Poll::Ready(Some(vec![3]))), &mut bytes);
    assert_eq!(told.tag, 1);
    assert_eq!(bytes.get(told.resolved_resource_id), Some(&vec![3]));
    let mut tag = |item| fx_kv_subscription_stream_poll_next(item, &mut bytes).tag;
    assert_eq!(tag(Ok(Poll::Ready(None))), 0);
    assert_eq!(tag(Ok(Poll::Pending)), 2);
    assert_eq!(tag(Err(KvSubscriptionHandlerError::RuntimeShutdown)), 3);
    assert_eq!(tag(Err(KvSubscriptionHandlerError::BindingNotFound)), 4);
    assert_eq!(tag(Err(KvSubscriptionHandlerError::BadRequest)), 5);
    assert_eq!(tag(Err(KvSubscriptionHandlerError::FailedToReadRequest)), 6);
    assert!(matches!(
        fx_kv_publish_handler(Some(view), &bindings, (0, 5), (5, 2), (7, 4)).unwrap().operation,
        KvOperation::Publish(p) if p.channel == b"ch" && p.data == b"data"
    ));
    assert_eq!(
        fx_kv_publish_handler(None, &bindings, (0, 5), (5, 2), (7, 4)).err(),
        Some(KvPublishHandlerError::FailedToReadRequest)
    );
    let mut results = ResourceTable::new();
    let id = results.insert(kv_publish_outcome(true));
    assert_eq!(fx_kv_publish_result_serialize(&mut results, id), KvPublishReply::Done);
}

fn sql_bindings() -> Table<String, SqlBindingConfig> {
    let mut bindings = Table::new();
    bindings.insert(
        s("db"),
        SqlBindingConfig {
            connection_id: s("c"),
            location: SqlBindingConfigLocation::Path(s("/db")),
            busy_timeout_ms: Some(5),
        },
    );
    bindings
}

#[test]
fn functions_query_their_databases() {
    let bindings = sql_bindings();
    let message = fx_sql_exec_handler(&bindings, s("db"), s("select 1"), vec![SqlValue::Null]).unwrap();
    assert_eq!((message.binding.connection_id.as_str(), message.statement.as_str()), ("c", "select 1"));
    assert!(matches!(
        fx_sql_exec_handler(&bindings, s("x"), s(""), vec![]),
        Err(SqlQueryError::BindingNotFound)
    ));
    assert!(matches!(fx_sql_batch_handler(&bindings, s("x"), vec![]), Err(SqlBatchError::BindingNotFound)));
    assert_eq!(fx_sql_batch_handler(&bindings, s("db"), vec![(s("q"), vec![])]).unwrap().queries.len(), 1);
    assert!(matches!(fx_sql_migrate_handler(&bindings, s("x"), vec![]), Err(SqlMigrationError::BindingNotFound)));
    assert_eq!(fx_sql_migrate_handler(&bindings, s("db"), vec![s("m")]).unwrap().migrations, vec![s("m")]);
    assert_eq!(sql_request_bytes(&[1, 2, 3], 1, 2), &[2, 3]);

    assert!(matches!(sql_exec_outcome(None), Err(SqlQueryError::RuntimeShutdown)));
    assert!(matches!(
        sql_exec_outcome(Some(Err(SqlQueryExecutionError::DatabaseBusy))),
        Err(SqlQueryError::DatabaseBusy)
    ));
    assert!(matches!(
        sql_batch_outcome(Some(Err(SqlTaskBatchError::StatementFailed { reason: s("r") }))),
        Err(SqlBatchError::StatementFailed { reason }) if reason == "r"
    ));
    assert!(sql_batch_outcome(Some(Ok(()))).is_ok());
    assert!(matches!(
        sql_migrate_outcome(Some(Err(SqlTaskMigrationError::SqlError { message: s("m") }))),
        Err(SqlMigrationError::SqlError { message }) if message == "m"
    ));
    assert!(matches!(sql_migrate_outcome(None), Err(SqlMigrationError::RuntimeShutdown)));
}

#[test]
fn outcomes_of_databases_are_handed_over_once() {
    let mut operations: ResourceTable<u8> = ResourceTable::new();
    let mut queries = ResourceTable::new();
    let id = operations.insert(0);
    let rows = vec![SqlRow { columns: vec![SqlValue::Integer(1)] }];
    let told = fx_sql_query_result_future_poll(&mut operations, &mut queries, id, Poll::Ready(Ok(rows)));
    assert_eq!(fx_sql_query_result_serialize(&mut queries, told.resource_id).unwrap().len(), 1);
    assert_eq!(queries.len(), 0);
    let mut batches = ResourceTable::new();
    let id = operations.insert(0);
    assert_eq!(fx_sql_batch_result_future_poll(&mut operations, &mut batches, id, Poll::Pending).tag, 1);
    let told = fx_sql_batch_result_future_poll(
        &mut operations,
        &mut batches,
        id,
        Poll::Ready(Err(SqlBatchError::DatabaseBusy)),
    );
    assert!(matches!(
        fx_sql_batch_result_serialize(&mut batches, told.resource_id),
        Err(SqlBatchError::DatabaseBusy)
    ));
    let mut migrations = ResourceTable::new();
    let id = migrations.insert(Ok(()));
    assert!(fx_migration_result_serialize(&mut migrations, id).is_ok());
}

fn register(name: &str, labels: Vec<(&str, &str)>) -> Option<CounterRegisterRequest> {
    Some(CounterRegisterRequest {
        name: Some(s(name)),
        labels: Some(labels.iter().map(|(k, v)| (Some(s(k)), Some(s(v)))).collect()),
    })
}

#[test]
fn functions_register_counters_whatever_the_order_of_labels() {
    let mut state = FunctionMetricsState::new();
    let first = fx_metrics_counter_register_handler(&mut state, register("c", vec![("a", "1"), ("b", "2")])).unwrap();
    let again = fx_metrics_counter_register_handler(&mut state, register("c", vec![("b", "2"), ("a", "1")])).unwrap();
    assert_eq!(first.into_abi(), again.into_abi());
    fx_metrics_counter_increment_handler(&mut state, first.into_abi(), 6);
    let delta = state.flush_delta();
    assert_eq!(delta.counters_delta.entries[0].1, 6);
    assert_eq!(
        fx_metrics_counter_register_handler(&mut state, None).err(),
        Some(MetricsCounterRegisterError::BadRequest)
    );
    let unnamed = Some(CounterRegisterRequest { name: None, labels: Some(Vec::new()) });
    assert_eq!(
        fx_metrics_counter_register_handler(&mut state, unnamed).err(),
        Some(MetricsCounterRegisterError::BadRequest)
    );
    assert_eq!(counter_register_bytes(Ok(&[1, 2]), 0, 2), Ok(&[1u8, 2][..]));
    assert_eq!(
        counter_register_bytes(Ok(&[1, 2]), 1, 2),
        Err(MetricsCounterRegisterError::FailedToReadRequest)
    );
}

#[test]
fn functions_get_random_bytes_and_the_time() {
    let mut memory = [0u8; 64];
    assert!(fx_random_handler(&mut memory, 16, 32));
    assert!(memory[0..16].iter().all(|b| *b == 0) && memory[48..].iter().all(|b| *b == 0));
    assert!(memory[16..48].iter().any(|b| *b != 0));
    let mut part = [7u8; 4];
    assert!(!fill_drawn(&mut part, 1, None));
    assert_eq!(part, [7, 7, 7, 7]);
    assert!(fill_drawn(&mut part, 1, Some(vec![1, 2])));
    assert_eq!(part, [7, 1, 2, 7]);
    assert_eq!(fx_time_handler(1_704_067_200, 5_999_999), 1_704_067_200_005);
}
