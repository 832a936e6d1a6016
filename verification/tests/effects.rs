use fx_runtime::definitions::bindings::{BlobBindingConfig, KvBindingConfig};
use fx_runtime::effects::blob::{
    blob_get_outcome, blob_get_reply, blob_route, fx_blob_delete_handler,
    fx_blob_delete_result_serialize, fx_blob_get_handler, fx_blob_get_result_serialize,
    fx_blob_put_handler, fx_blob_put_result_serialize, handle_blob_request, BlobDeleteError,
    BlobGetError, BlobGetReply, BlobMessage, BlobPutError, BlobRequest, BlobRoute,
    BlobStorageError,
};
use fx_runtime::effects::exposition::{
    escape_label_value, sanitize_label_name, sanitize_metric_name, write_counter,
};
use fx_runtime::effects::fetch::{fetch_client_error, FetchResultError, FunctionInvokeError};
use fx_runtime::effects::kv::{
    handle_kv_get, handle_kv_publish, handle_kv_request, handle_kv_set, kv_get_reply, set_outcome,
    KvGetHandlerError, KvGetReply, KvOperation, KvPublishHandlerError, KvRoute, KvSetError,
    KvSetHandlerError, KvSetRequest, KvSubscriptionResource, SubscriptionStep,
};
use fx_runtime::effects::logs::{
    fx_log_handler, http_log_event, EventFieldValue, LogEventLevel, LogEventType, LogField,
    LogLevel, LogMessage, LogMessageEvent, LogRequest, LogSource, StdoutLogger,
};
use fx_runtime::effects::metrics::{
    FunctionMetricsDelta, FunctionMetricsState, MetricId, MetricKey, MetricsRegistry,
};
use fx_runtime::effects::sql::{
    exec, read_rows, Query, RawColumn, RawRow, SqlBatchError, SqlError, SqlMappingError,
    SqlMigrationError, SqlQueryError, SqlQueryExecutionError, SqlTaskBatchError,
    SqlTaskMigrationError, SqlValue,
};
use fx_runtime::function::id::FunctionId;
use fx_runtime::function::memory::FunctionMemoryError;
use fx_runtime::order::sort_pairs;
use fx_runtime::poll::Poll;
use fx_runtime::profiling::{current_memory_usage, init_memory_tracker, MemoryTracker};
use fx_runtime::resources::resource::ResourceTable;
use fx_runtime::table::Table;
use fx_runtime::web::not_found;

fn s(text: &str) -> String {
    text.to_string()
}

fn kv_bindings() -> Table<String, KvBindingConfig> {
    let mut bindings = Table::new();
    bindings.insert(s("cache"), KvBindingConfig { namespace: s("ns") });
    bindings
}

fn blob_bindings() -> Table<String, BlobBindingConfig> {
    let mut bindings = Table::new();
    bindings.insert(s("files"), BlobBindingConfig { bucket: s("bucket") });
    bindings
}

#[test]
fn paths_of_the_key_value_service() {
    assert_eq!(handle_kv_request("/get"), KvRoute::Get);
    assert_eq!(handle_kv_request("/set"), KvRoute::SetKey);
    assert_eq!(handle_kv_request("/publish"), KvRoute::Publish);
    assert_eq!(handle_kv_request("/"), KvRoute::NotFound);
}

#[test]
fn keys_are_read_through_bindings() {
    let bindings = kv_bindings();
    let message = handle_kv_get(Some(b"cache".to_vec()), Some(vec![1]), &bindings).unwrap();
    assert_eq!(message.namespace, "ns");
    assert!(matches!(message.operation, KvOperation::Get { key } if key == vec![1]));
    let read = |binding: Option<Vec<u8>>, key| handle_kv_get(binding, key, &bindings).err();
    assert_eq!(read(Some(b"nope".to_vec()), Some(vec![1])), Some(KvGetHandlerError::BindingNotFound));
    assert_eq!(read(Some(vec![0xff]), Some(vec![1])), Some(KvGetHandlerError::BadRequest));
    assert_eq!(read(None, Some(vec![1])), Some(KvGetHandlerError::BadRequest));
    assert_eq!(read(Some(b"cache".to_vec()), None), Some(KvGetHandlerError::BadRequest));
}

#[test]
fn keys_are_set_with_options() {
    let bindings = kv_bindings();
    let set = |nx, px| match handle_kv_set(Some(b"cache".to_vec()), Some(vec![1]), Some(vec![2]), nx, px, &bindings) {
        Ok(message) => match message.operation {
            KvOperation::SetKey(request) => request,
            _ => panic!("expected a request to set"),
        },
        Err(_) => panic!("expected a message"),
    };
    let plain = set(0, 0);
    assert_eq!((plain.key, plain.value, plain.nx, plain.px_ms), (vec![1], vec![2], false, None));
    let request = set(1, 1500);
    assert_eq!((request.nx, request.px_ms), (true, Some(1500)));
    assert_eq!(set(0, -5).px_ms, None);
    assert!(matches!(
        handle_kv_set(Some(b"x".to_vec()), Some(vec![1]), Some(vec![2]), 0, 0, &bindings),
        Err(KvSetHandlerError::BindingNotFound)
    ));
    let built = KvSetRequest::new(vec![1], vec![2]).with_nx(true).with_px(Some(9));
    assert_eq!((built.nx, built.px_ms), (true, Some(9)));
}

#[test]
fn what_setting_a_key_gives() {
    assert_eq!(set_outcome(Some(Ok(()))), Ok(()));
    assert_eq!(set_outcome(Some(Err(KvSetError::AlreadyExists))), Err(KvSetHandlerError::AlreadyExists));
    assert_eq!(set_outcome(None), Err(KvSetHandlerError::RuntimeShutdown));
}

#[test]
fn data_is_published_through_bindings() {
    let bindings = kv_bindings();
    let message = handle_kv_publish(Some(b"cache".to_vec()), Some(vec![1]), Some(vec![2]), &bindings).unwrap();
    assert!(matches!(message.operation, KvOperation::Publish(p) if p.channel == vec![1] && p.data == vec![2]));
    assert_eq!(
        handle_kv_publish(Some(b"x".to_vec()), Some(vec![1]), Some(vec![2]), &bindings).err(),
        Some(KvPublishHandlerError::BindingNotFound)
    );
}

#[test]
fn replies_about_keys() {
    assert!(matches!(kv_get_reply(Ok(Some(vec![1]))), KvGetReply::Value(v) if v == vec![1]));
    assert!(matches!(kv_get_reply(Ok(None)), KvGetReply::KeyNotFound));
    assert!(matches!(kv_get_reply(Err(KvGetHandlerError::BindingNotFound)), KvGetReply::BindingNotFound));
    assert!(matches!(kv_get_reply(Err(KvGetHandlerError::RuntimeShutdown)), KvGetReply::RuntimeShutdown));
}

#[test]
fn subscriptions_open_before_they_stream() {
    let mut subscription: KvSubscriptionResource<u8, u16> = KvSubscriptionResource::Init(1);
    assert!(matches!(subscription.poll_next(Poll::Pending), SubscriptionStep::Wait));
    assert!(matches!(subscription.poll_next(Poll::Ready(7)), SubscriptionStep::PollStream));
    assert!(matches!(subscription, KvSubscriptionResource::Stream(7)));
}

#[test]
fn paths_of_the_blob_service() {
    assert_eq!(blob_route("/get"), BlobRoute::Get);
    assert_eq!(blob_route("/delete"), BlobRoute::Delete);
    assert_eq!(blob_route("/put"), BlobRoute::NotFound);
    assert_eq!(not_found(), (404, s("not found.\n")));
}

#[test]
fn blobs_are_reached_through_bindings() {
    let bindings = blob_bindings();
    let get = BlobRequest::Get { binding: s("files"), key: vec![1] };
    assert!(matches!(handle_blob_request(get, &bindings), Ok(BlobMessage::Get { bucket, key }) if bucket == "bucket" && key == vec![1]));
    let unknown = BlobRequest::Get { binding: s("x"), key: vec![1] };
    assert!(matches!(handle_blob_request(unknown, &bindings), Err(BlobGetError::BindingNotExists)));
    let delete = BlobRequest::Delete { binding: s("files"), key: vec![2] };
    assert!(matches!(handle_blob_request(delete, &bindings), Ok(BlobMessage::Delete { .. })));

    let view: &[u8] = b"fileskeyvalue";
    assert!(matches!(
        fx_blob_put_handler(view, &bindings, (0, 5), (5, 3), (8, 5)),
        BlobMessage::Put { bucket, key, value } if bucket == "bucket" && key == b"key" && value == b"value"
    ));
    assert!(matches!(fx_blob_delete_handler(view, &bindings, (0, 5), (5, 3)), BlobMessage::Delete { key, .. } if key == b"key"));
    assert!(matches!(fx_blob_get_handler(Ok(view), &bindings, (0, 5), (5, 3)), Ok(BlobMessage::Get { .. })));
    assert!(matches!(
        fx_blob_get_handler(Err(FunctionMemoryError::MemoryNotFound), &bindings, (0, 5), (5, 3)),
        Err(BlobGetError::BadRequestFailedToAccessMemory)
    ));
    assert!(matches!(
        fx_blob_get_handler(Ok(view), &bindings, (0, 50), (5, 3)),
        Err(BlobGetError::BadRequestArgumentOutOfBounds)
    ));
    assert!(matches!(
        fx_blob_get_handler(Ok(&[0xff]), &bindings, (0, 1), (0, 1)),
        Err(BlobGetError::BadRequestArgumentFailedToDecode)
    ));
    assert!(matches!(
        fx_blob_get_handler(Ok(view), &bindings, (0, 4), (5, 3)),
        Err(BlobGetError::BindingNotExists)
    ));
}

#[test]
fn what_reading_a_blob_gives() {
    assert!(matches!(blob_get_outcome(Ok(Some(vec![1]))), Ok(Some(_))));
    assert!(matches!(blob_get_outcome(Err(BlobStorageError {})), Err(BlobGetError::StorageError)));
    assert!(matches!(blob_get_reply(Ok(None)), BlobGetReply::NotFound));
    assert!(matches!(blob_get_reply(Err(BlobGetError::StorageError)), BlobGetReply::StorageError));

    let mut read = ResourceTable::new();
    let id = read.insert(Ok(Some(vec![4])));
    assert!(matches!(fx_blob_get_result_serialize(&mut read, id), Some(BlobGetReply::Value(v)) if v == vec![4]));
    assert!(fx_blob_get_result_serialize(&mut read, id).is_none());
    let mut stored = ResourceTable::new();
    let id = stored.insert(Err(BlobPutError::StorageError));
    assert_eq!(fx_blob_put_result_serialize(&mut stored, id), Some(Err(BlobPutError::StorageError)));
    assert_eq!(fx_blob_put_result_serialize(&mut stored, id), None);
    let mut deleted: ResourceTable<Result<(), BlobDeleteError>> = ResourceTable::new();
    let id = deleted.insert(Ok(()));
    assert_eq!(fx_blob_delete_result_serialize(&mut deleted, id), Some(Ok(())));
    assert_eq!(deleted.len(), 0);
}

#[test]
fn failures_of_requests() {
    assert_eq!(fetch_client_error(true, true), FetchResultError::ConnectionTimeout);
    assert_eq!(fetch_client_error(false, true), FetchResultError::ConnectionFailed);
    assert_eq!(FetchResultError::from(FunctionInvokeError::NotFound), FetchResultError::FunctionNotFound);
    assert_eq!(FetchResultError::from(FunctionInvokeError::FunctionBusy), FetchResultError::FunctionBusy);
    assert_eq!(FetchResultError::from(FunctionInvokeError::RuntimeShutdown), FetchResultError::RuntimeShutdown);
}

fn column(value: RawColumn) -> Result<RawColumn, String> {
    Ok(value)
}

#[test]
fn rows_are_read_with_their_types() {
    let row = RawRow {
        columns: vec![
            column(RawColumn::Null),
            column(RawColumn::Integer(-3)),
            column(RawColumn::Real(1.5f64.to_bits())),
            column(RawColumn::Text("straße".as_bytes().to_vec())),
            column(RawColumn::Blob(vec![0, 255])),
        ],
    };
    let result = read_rows(&vec![Ok(row)]).unwrap();
    let columns = &result.rows[0].columns;
    assert!(matches!(columns[0], SqlValue::Null));
    assert_eq!(columns[1].to_i64(), Ok(-3));
    assert!(matches!(columns[2], SqlValue::Real(bits) if f64::from_bits(bits) == 1.5));
    assert_eq!(columns[3].to_text(), Ok(s("straße")));
    assert!(matches!(&columns[4], SqlValue::Blob(b) if *b == vec![0, 255]));
    assert_eq!(columns[0].to_i64(), Err(SqlMappingError::WrongType));
    assert_eq!(columns[1].to_text(), Err(SqlMappingError::WrongType));
}

#[test]
fn the_first_failure_of_a_query_is_reported() {
    let broken = RawRow { columns: vec![column(RawColumn::Text(vec![0xff])), Err(s("later"))] };
    match read_rows(&vec![Ok(broken)]) {
        Err(SqlError::FieldDecode { reason }) => {
            assert_eq!(reason, "invalid utf-8 sequence of 1 bytes from index 0")
        }
        _ => panic!("expected a field that cannot be decoded"),
    }
    assert!(matches!(
        read_rows(&vec![Ok(RawRow { columns: vec![Err(s("index"))] })]),
        Err(SqlError::ColumnGet { reason }) if reason == "index"
    ));
    assert!(matches!(read_rows(&vec![Err(s("io"))]), Err(SqlError::RowRead { reason }) if reason == "io"));
    assert!(matches!(exec(Err(s("syntax"))), Err(SqlError::QueryRun { reason }) if reason == "syntax"));
    assert!(exec(Ok(Vec::new())).unwrap().rows.is_empty());
    let query = Query::new(s("select ?")).with_param(SqlValue::Integer(1)).with_param(SqlValue::Null);
    assert_eq!(query.params.len(), 2);
}

#[test]
fn errors_of_databases_are_passed_on() {
    assert!(matches!(SqlQueryError::from(SqlQueryExecutionError::DatabaseBusy), SqlQueryError::DatabaseBusy));
    assert!(matches!(
        SqlQueryError::from(SqlQueryExecutionError::StatementError(s("x"))),
        SqlQueryError::StatementError(x) if x == "x"
    ));
    assert!(matches!(SqlBatchError::from(SqlTaskBatchError::DatabaseBusy), SqlBatchError::DatabaseBusy));
    assert!(matches!(SqlMigrationError::from(SqlTaskMigrationError::DatabaseBusy), SqlMigrationError::DatabaseBusy));
    assert!(matches!(
        SqlMigrationError::from(SqlTaskMigrationError::MigrationExecutionError { message: None }),
        SqlMigrationError::MigrationExecutionError { message: None }
    ));
}

fn text_field(name: &str, value: &str) -> LogField {
    LogField { name: Some(s(name)), value: Some(s(value)) }
}

#[test]
fn messages_of_functions_become_events() {
    let request = LogRequest {
        event_type: Some(LogEventType::Begin),
        level: Some(LogEventLevel::Error),
        fields: Some(vec![text_field("a", "1"), text_field("a", "2")]),
    };
    let event = fx_log_handler(&FunctionId::new(s("f")), request);
    assert!(matches!(event.source(), LogSource::Function { id } if id == "f"));
    assert!(matches!(event.event_type, LogEventType::Begin));
    assert!(matches!(event.level, LogEventLevel::Error));
    assert!(matches!(event.fields().get(&s("a")), Some(EventFieldValue::Text(t)) if t == "2"));
    let mut fields = Table::new();
    fields.insert(s("k"), s("v"));
    let event = LogMessage::new(LogSource::FxRuntime, LogEventType::Instant, LogLevel::Debug, fields).into_event();
    assert!(matches!(event.level, LogEventLevel::Debug));
    assert!(matches!(event.fields.get(&s("k")), Some(EventFieldValue::Text(t)) if t == "v"));
}

fn event(source: LogSource, fields: Table<String, EventFieldValue>) -> LogMessageEvent {
    LogMessageEvent::new(source, LogEventType::Instant, LogEventLevel::Info, fields)
}

#[test]
fn events_are_sent_over_http() {
    let mut fields = Table::new();
    fields.insert(s("message"), EventFieldValue::Text(s("hello")));
    fields.insert(s("request_id"), EventFieldValue::U64(7));
    let sent = http_log_event(
        event(LogSource::Function { id: s("f") }, fields),
        s("unused"),
        s("U64(7)"),
        s("now"),
    );
    assert_eq!(sent.message, "hello");
    assert_eq!(sent.request_id, Some(s("U64(7)")));
    assert_eq!(sent.function_id, Some(s("f")));
    assert_eq!((sent.source.as_str(), sent.timestamp.as_str()), ("fx", "now"));
    assert!(matches!(sent.level, LogEventLevel::Info));
    assert_eq!(sent.fields.len(), 2);
    assert!(matches!(sent.fields.get(&s("message")), Some(EventFieldValue::Text(t)) if t == "hello"));
    assert!(matches!(sent.fields.get(&s("request_id")), Some(EventFieldValue::U64(7))));
    let bare = http_log_event(event(LogSource::FxRuntime, Table::new()), s(""), s(""), s("t"));
    assert_eq!(bare.message, "fx log");
    assert_eq!((bare.function_id, bare.request_id), (None, None));
}

#[test]
fn printed_messages_name_their_source() {
    let logger = StdoutLogger::new();
    assert_eq!(logger.label(&LogSource::FxRuntime), "fx");
    assert_eq!(logger.label(&LogSource::function(&FunctionId::new(s("f")))), "f");
}

fn key(name: &str, labels: Vec<(String, String)>) -> MetricKey {
    MetricKey { name: s(name), labels }
}

#[test]
fn counters_are_registered_once_and_flushed() {
    let mut state = FunctionMetricsState::new();
    let first = state.counter_register(key("hits", Vec::new()));
    let second = state.counter_register(key("misses", Vec::new()));
    assert_eq!((first.into_abi(), second.into_abi()), (0, 1));
    assert_eq!(state.counter_register(key("hits", Vec::new())).into_abi(), 0);
    state.counter_increment(MetricId::from_abi(0), 2);
    state.counter_increment(MetricId::new(0), 3);
    let delta = state.flush_delta();
    assert_eq!(delta.counters_delta.get(&key("hits", Vec::new())), Some(&5));
    assert_eq!(delta.counters_delta.len(), 1);
    assert!(state.flush_delta().is_empty());
}

fn counted(name: &str, value: u64) -> FunctionMetricsDelta {
    let mut delta = FunctionMetricsDelta::empty();
    delta.counters_delta.insert(key(name, Vec::new()), value);
    delta
}

#[test]
fn counts_add_up_in_any_order() {
    let mut ab = counted("x", 1);
    ab.append(counted("y", 2));
    ab.append(counted("x", 4));
    let mut ba = counted("x", 4);
    ba.append(counted("x", 1));
    ba.append(counted("y", 2));
    for delta in [&ab, &ba] {
        assert_eq!(delta.counters_delta.get(&key("x", Vec::new())), Some(&5));
        assert_eq!(delta.counters_delta.get(&key("y", Vec::new())), Some(&2));
    }
}

#[test]
fn totals_are_exposed_as_text() {
    let mut registry = MetricsRegistry::new();
    assert_eq!(registry.encode(), "");
    for value in [3, 4] {
        let mut delta = FunctionMetricsDelta::empty();
        delta.counters_delta.insert(key("http.hits", vec![(s("1st"), s("a\"b\\c\nd")), (s("b"), s("x"))]), value);
        let mut update = Table::new();
        update.insert(FunctionId::new(s("my-fn")), delta);
        registry.update(update);
    }
    assert_eq!(
        registry.encode(),
        "# TYPE function_my_fn_http_hits counter\nfunction_my_fn_http_hits{_st=\"a\\\"b\\\\c\\nd\",b=\"x\"} 7\n"
    );
}

#[test]
fn names_and_values_are_made_fit_for_exposition() {
    assert_eq!(sanitize_metric_name("a-b.c:d_9é"), "a_b_c:d_9_");
    assert_eq!(sanitize_metric_name("valid_name:x"), "valid_name:x");
    assert_eq!(sanitize_label_name("9a:b"), "_a_b");
    assert_eq!(sanitize_label_name("a9"), "a9");
    assert_eq!(escape_label_value("\\\"\nplain"), "\\\\\\\"\\nplain");
    assert_ne!(escape_label_value("\\n"), escape_label_value("\n"));
    assert_eq!(write_counter("f", &key("c", Vec::new()), u64::MAX), "# TYPE function_f_c counter\nfunction_f_c 18446744073709551615\n");
}

#[test]
fn pairs_are_sorted() {
    let pair = |a: &str, b: &str| (s(a), s(b));
    let sorted = vec![pair("a", "1"), pair("a", "2"), pair("ab", "0"), pair("b", "0")];
    let mixed = vec![pair("b", "0"), pair("a", "2"), pair("ab", "0"), pair("a", "1")];
    assert_eq!(sort_pairs(mixed), sorted);
    assert_eq!(sort_pairs(sorted.clone()), sorted);
    assert!(sort_pairs(Vec::new()).is_empty());
}

#[test]
fn memory_is_tracked() {
    let tracker = MemoryTracker { started_at: Some(100) };
    assert_eq!(tracker.total_since(Some(130)), Some(30));
    assert_eq!(tracker.total_since(Some(100)), Some(0));
    assert_eq!(tracker.total_since(Some(99)), None);
    assert_eq!(tracker.total_since(None), None);
    assert_eq!(MemoryTracker { started_at: None }.report_total(), None);
    let usage = current_memory_usage();
    let started = init_memory_tracker();
    assert_eq!(usage.is_some(), started.started_at.is_some());
}
