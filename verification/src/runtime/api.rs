//! What a function asks of the host in one message, and what it is answered.
use vstd::prelude::*;

use crate::effects::sql;
use crate::effects::sql::{Query, QueryResult, SqlError, SqlValue};
use crate::function::id::FunctionId;
use crate::runtime::error::{FunctionExecutionError, MetricsError};
use crate::streams::HostPoolIndex;
use crate::table::Table;

verus! {

/// Why a call of another function failed that was waited for.
#[derive(Debug)]
pub enum RpcApiAsyncError {
    FunctionInvocation(FunctionExecutionError),
}

impl From<FunctionExecutionError> for RpcApiAsyncError {
    fn from(err: FunctionExecutionError) -> (rpc: Self) {
        RpcApiAsyncError::FunctionInvocation(err)
    }
}

impl vstd::std_specs::convert::FromSpecImpl<FunctionExecutionError> for RpcApiAsyncError {
    open spec fn obeys_from_spec() -> bool {
        true
    }

    open spec fn from_spec(err: FunctionExecutionError) -> Self {
        RpcApiAsyncError::FunctionInvocation(err)
    }
}

/// Why something failed that a function waited for.
#[derive(Debug)]
pub enum HostFutureAsyncApiError {
    Rpc(RpcApiAsyncError),
}

impl From<RpcApiAsyncError> for HostFutureAsyncApiError {
    fn from(err: RpcApiAsyncError) -> (api: Self) {
        HostFutureAsyncApiError::Rpc(err)
    }
}

impl vstd::std_specs::convert::FromSpecImpl<RpcApiAsyncError> for HostFutureAsyncApiError {
    open spec fn obeys_from_spec() -> bool {
        true
    }

    open spec fn from_spec(err: RpcApiAsyncError) -> Self {
        HostFutureAsyncApiError::Rpc(err)
    }
}

/// What a function is answered when it calls another.
#[derive(Debug)]
pub enum RpcAnswer {
    FutureId(u64),
    RuntimeError,
}

/// What a function is answered when it reads a key.
#[derive(Debug)]
pub enum KvGetAnswer {
    BindingNotFound,
    KeyNotFound,
    Value(Vec<u8>),
}

/// What a function is answered when it sets a key.
#[derive(Clone, Copy, Debug, PartialEq, Eq, Structural)]
pub enum KvSetAnswer {
    BindingNotFound,
    Done,
}

/// What a function is answered when it queries a database.
#[derive(Debug)]
pub enum SqlExecAnswer {
    BindingNotFound,
    SqlError { description: String },
    Rows(QueryResult),
}

/// What a function is answered when it runs queries in one transaction, or migrates a database.
#[derive(Debug)]
pub enum SqlDoneAnswer {
    BindingNotFound,
    SqlError { description: String },
    Done,
}

/// How the calls of an operation are counted; those that are not answered in full are not.
pub open spec fn is_counted_as(counted: Option<&'static str>, operation: Option<&'static str>) -> bool {
    match (counted, operation) {
        (Some(c), Some(o)) => c@ == o@,
        (None, None) => true,
        _ => false,
    }
}

/// What a call of another function is answered: the number of the future that gives the outcome,
/// whether or not the function is bound to the other.
pub fn handle_rpc<E>(pushed: Result<HostPoolIndex, E>) -> (answered: (
    RpcAnswer,
    Option<&'static str>,
))
    ensures
        match pushed {
            Ok(index) => answered.0 == RpcAnswer::FutureId(index.0) && is_counted_as(
                answered.1,
                Some("rpc"),
            ),
            Err(_) => answered.0 == RpcAnswer::RuntimeError && answered.1 is None,
        },
{
    match pushed {
        Ok(index) => (RpcAnswer::FutureId(index.0), Some("rpc")),
        Err(_) => (RpcAnswer::RuntimeError, None),
    }
}

/// What the read of a key is answered; `value` is what the storage holds, where there is one.
pub fn handle_kv_get<D>(
    storage: &Table<String, D>,
    binding: &String,
    value: Option<Vec<u8>>,
) -> (answered: (KvGetAnswer, Option<&'static str>))
    requires
        storage.wf(),
    ensures
        answered.0 == (if !storage@.dom().contains(binding@) {
            KvGetAnswer::BindingNotFound
        } else {
            match value {
                Some(v) => KvGetAnswer::Value(v),
                None => KvGetAnswer::KeyNotFound,
            }
        }),
        is_counted_as(
            answered.1,
            if answered.0 is Value {
                Some("kv::get")
            } else {
                None
            },
        ),
{
    if !storage.contains_key(binding) {
        return (KvGetAnswer::BindingNotFound, None);
    }
    match value {
        Some(v) => (KvGetAnswer::Value(v), Some("kv::get")),
        None => (KvGetAnswer::KeyNotFound, None),
    }
}

/// What the setting of a key is answered.
pub fn handle_kv_set<D>(storage: &Table<String, D>, binding: &String) -> (answered: (
    KvSetAnswer,
    Option<&'static str>,
))
    requires
        storage.wf(),
    ensures
        answered.0 == (if storage@.dom().contains(binding@) {
            KvSetAnswer::Done
        } else {
            KvSetAnswer::BindingNotFound
        }),
        is_counted_as(
            answered.1,
            if answered.0 is Done {
                Some("kv::set")
            } else {
                None
            },
        ),
{
    if storage.contains_key(binding) {
        (KvSetAnswer::Done, Some("kv::set"))
    } else {
        (KvSetAnswer::BindingNotFound, None)
    }
}

/// Whether a query is answered with what the database gave, where it is bound.
pub open spec fn is_exec_answer(
    answer: SqlExecAnswer,
    bound: bool,
    result: Result<QueryResult, SqlError>,
) -> bool {
    match (answer, result) {
        (SqlExecAnswer::BindingNotFound, _) => !bound,
        (SqlExecAnswer::Rows(rows), Ok(r)) => bound && rows == r,
        (SqlExecAnswer::SqlError { description }, Err(err)) => bound && description@
            == sql::sql_error_message(err@),
        _ => false,
    }
}

/// What a query is answered; `result` is what the database gave, where there is one.
pub fn handle_sql_exec<D>(
    databases: &Table<String, D>,
    binding: &String,
    result: Result<QueryResult, SqlError>,
) -> (answered: (SqlExecAnswer, Option<&'static str>))
    requires
        databases.wf(),
    ensures
        is_exec_answer(answered.0, databases@.dom().contains(binding@), result),
        is_counted_as(
            answered.1,
            if answered.0 is Rows {
                Some("sql::exec")
            } else {
                None
            },
        ),
{
    if !databases.contains_key(binding) {
        return (SqlExecAnswer::BindingNotFound, None);
    }
    match result {
        Ok(rows) => (SqlExecAnswer::Rows(rows), Some("sql::exec")),
        Err(err) => (SqlExecAnswer::SqlError { description: err.message() }, None),
    }
}

/// What a transaction is answered; `result` is what came of it, where there is a database.
pub fn handle_sql_batch<D>(
    databases: &Table<String, D>,
    binding: &String,
    result: Result<(), String>,
) -> (answer: SqlDoneAnswer)
    requires
        databases.wf(),
    ensures
        answer == done_answer(databases@.dom().contains(binding@), result),
{
    if !databases.contains_key(binding) {
        return SqlDoneAnswer::BindingNotFound;
    }
    match result {
        Ok(()) => SqlDoneAnswer::Done,
        Err(description) => SqlDoneAnswer::SqlError { description },
    }
}

/// What a migration is answered; `result` is what came of it, where there is a database.
pub fn handle_sql_migrate<D>(
    databases: &Table<String, D>,
    binding: &String,
    result: Result<(), String>,
) -> (answer: SqlDoneAnswer)
    requires
        databases.wf(),
    ensures
        answer == done_answer(databases@.dom().contains(binding@), result),
{
    handle_sql_batch(databases, binding, result)
}

/// A query as a function sends it.
#[derive(Debug)]
pub struct SqlQueryMessage {
    pub statement: String,
    pub params: Vec<SqlValue>,
}

/// What a function asks of the host.
#[derive(Debug)]
pub enum ApiRequest {
    MetricsCounterIncrement { counter_name: String, tags: Vec<(String, String)>, delta: u64 },
    Rpc { function_id: String, method_name: String, argument: Vec<u8> },
    KvGet { binding_id: String, key: Vec<u8> },
    KvSet { binding_id: String, key: Vec<u8>, value: Vec<u8> },
    SqlExec { database: String, query: SqlQueryMessage },
    SqlBatch { database: String, queries: Vec<SqlQueryMessage> },
    SqlMigrate { database: String, migrations: Vec<String> },
}

/// What the host does for a function.
#[derive(Debug)]
pub enum ApiWork {
    /// Counts a counter of the function.
    Count { counter_name: String, tags: Vec<(String, String)>, delta: u64 },
    /// Invokes a handler of a function, and puts the future of that into the pool.
    Invoke { function_id: FunctionId, handler: String, argument: Vec<u8> },
    Read { binding: String, key: Vec<u8> },
    Write { binding: String, key: Vec<u8>, value: Vec<u8> },
    Exec { binding: String, query: Query },
    Batch { binding: String, queries: Vec<Query> },
    Migrate { binding: String, migrations: Vec<String> },
}

/// A query for a database, from the message that asks for it.
pub fn sql_query_from_reader(message: SqlQueryMessage) -> (query: Query)
    ensures
        query.query == message.statement,
        query.params == message.params,
{
    Query { query: message.statement, params: message.params }
}

fn queries_from_reader(messages: Vec<SqlQueryMessage>) -> (queries: Vec<Query>)
    ensures
        is_queries(queries@, messages@),
{
    let ghost all = messages@;
    let mut messages = messages;
    let mut reversed: Vec<Query> = Vec::new();
    let count: usize = messages.len();
    let mut left: usize = count;
    while left > 0
        invariant
            left <= count,
            count == all.len(),
            messages@ =~= all.take(left as int),
            reversed@.len() == count - left,
            forall|i: int|
                0 <= i < reversed@.len() ==> is_query(#[trigger] reversed@[i], all[count - 1 - i]),
        decreases left,
    {
        if let Some(message) = messages.pop() {
            reversed.push(sql_query_from_reader(message));
        }
        left = left - 1;
    }
    let mut queries: Vec<Query> = Vec::new();
    let ghost turned = reversed@;
    let mut i: usize = 0;
    while i < count
        invariant
            i <= count,
            count == all.len(),
            turned.len() == count,
            forall|k: int| 0 <= k < count ==> is_query(#[trigger] turned[k], all[count - 1 - k]),
            reversed@ =~= turned.take(count - i),
            queries@.len() == i,
            forall|k: int| 0 <= k < i ==> is_query(#[trigger] queries@[k], all[k]),
        decreases count - i,
    {
        if let Some(query) = reversed.pop() {
            assert(query == turned[count - 1 - i]);
            queries.push(query);
        }
        i = i + 1;
    }
    queries
}

/// Whether a query is the one that a message asks for.
pub open spec fn is_query(query: Query, message: SqlQueryMessage) -> bool {
    query.query == message.statement && query.params == message.params
}

/// Whether queries are those that messages ask for, in their order.
pub open spec fn is_queries(queries: Seq<Query>, messages: Seq<SqlQueryMessage>) -> bool {
    queries.len() == messages.len() && forall|i: int|
        0 <= i < messages.len() ==> is_query(#[trigger] queries[i], messages[i])
}

/// What the host does for a request of a function, or what the function is answered at once where it
/// asks for something that it is not bound to.
pub open spec fn is_work(
    work: Result<ApiWork, ApiAnswer>,
    request: ApiRequest,
    storage: Set<Seq<char>>,
    databases: Set<Seq<char>>,
) -> bool {
    match (request, work) {
        (
            ApiRequest::MetricsCounterIncrement { counter_name, tags, delta },
            Ok(work),
        ) => work == (ApiWork::Count { counter_name, tags, delta }),
        (
            ApiRequest::Rpc { function_id, method_name, argument },
            Ok(ApiWork::Invoke { function_id: f, handler, argument: a }),
        ) => f@ == function_id@ && handler == method_name && a == argument,
        (ApiRequest::KvGet { binding_id, key }, Ok(work)) => storage.contains(binding_id@) && work
            == (ApiWork::Read { binding: binding_id, key }),
        (ApiRequest::KvGet { binding_id, .. }, Err(answer)) => !storage.contains(binding_id@)
            && answer == ApiAnswer::KvGet(KvGetAnswer::BindingNotFound),
        (ApiRequest::KvSet { binding_id, key, value }, Ok(work)) => storage.contains(binding_id@)
            && work == (ApiWork::Write { binding: binding_id, key, value }),
        (ApiRequest::KvSet { binding_id, .. }, Err(answer)) => !storage.contains(binding_id@)
            && answer == ApiAnswer::KvSet(KvSetAnswer::BindingNotFound),
        (
            ApiRequest::SqlExec { database, query },
            Ok(ApiWork::Exec { binding, query: q }),
        ) => databases.contains(database@) && binding == database && is_query(q, query),
        (ApiRequest::SqlExec { database, .. }, Err(answer)) => !databases.contains(database@)
            && answer == ApiAnswer::SqlExec(SqlExecAnswer::BindingNotFound),
        (
            ApiRequest::SqlBatch { database, queries },
            Ok(ApiWork::Batch { binding, queries: q }),
        ) => databases.contains(database@) && binding == database && is_queries(q@, queries@),
        (ApiRequest::SqlBatch { database, .. }, Err(answer)) => !databases.contains(database@)
            && answer == ApiAnswer::SqlBatch(SqlDoneAnswer::BindingNotFound),
        (ApiRequest::SqlMigrate { database, migrations }, Ok(work)) => databases.contains(database@)
            && work == (ApiWork::Migrate { binding: database, migrations }),
        (ApiRequest::SqlMigrate { database, .. }, Err(answer)) => !databases.contains(database@)
            && answer == ApiAnswer::SqlMigrate(SqlDoneAnswer::BindingNotFound),
        _ => false,
    }
}

/// What the host does for a request of a function, or what the function is answered at once.
pub fn fx_api_work<S, D>(
    storage: &Table<String, S>,
    databases: &Table<String, D>,
    request: ApiRequest,
) -> (work: Result<ApiWork, ApiAnswer>)
    requires
        storage.wf(),
        databases.wf(),
    ensures
        is_work(work, request, storage@.dom(), databases@.dom()),
{
    match request {
        ApiRequest::MetricsCounterIncrement { counter_name, tags, delta } => Ok(
            ApiWork::Count { counter_name, tags, delta },
        ),
        ApiRequest::Rpc { function_id, method_name, argument } => Ok(
            ApiWork::Invoke {
                function_id: FunctionId::new(function_id),
                handler: method_name,
                argument,
            },
        ),
        ApiRequest::KvGet { binding_id, key } => {
            if !storage.contains_key(&binding_id) {
                return Err(ApiAnswer::KvGet(KvGetAnswer::BindingNotFound));
            }
            Ok(ApiWork::Read { binding: binding_id, key })
        },
        ApiRequest::KvSet { binding_id, key, value } => {
            if !storage.contains_key(&binding_id) {
                return Err(ApiAnswer::KvSet(KvSetAnswer::BindingNotFound));
            }
            Ok(ApiWork::Write { binding: binding_id, key, value })
        },
        ApiRequest::SqlExec { database, query } => {
            if !databases.contains_key(&database) {
                return Err(ApiAnswer::SqlExec(SqlExecAnswer::BindingNotFound));
            }
            Ok(ApiWork::Exec { binding: database, query: sql_query_from_reader(query) })
        },
        ApiRequest::SqlBatch { database, queries } => {
            if !databases.contains_key(&database) {
                return Err(ApiAnswer::SqlBatch(SqlDoneAnswer::BindingNotFound));
            }
            Ok(ApiWork::Batch { binding: database, queries: queries_from_reader(queries) })
        },
        ApiRequest::SqlMigrate { database, migrations } => {
            if !databases.contains_key(&database) {
                return Err(ApiAnswer::SqlMigrate(SqlDoneAnswer::BindingNotFound));
            }
            Ok(ApiWork::Migrate { binding: database, migrations })
        },
    }
}

/// What a function asks of the host, and what the host found when it did it.
pub enum ApiCall {
    MetricsCounterIncrement { counted: Result<(), MetricsError> },
    Rpc { pushed: Result<HostPoolIndex, String> },
    KvGet { binding: String, value: Option<Vec<u8>> },
    KvSet { binding: String },
    SqlExec { binding: String, result: Result<QueryResult, SqlError> },
    SqlBatch { binding: String, result: Result<(), String> },
    SqlMigrate { binding: String, result: Result<(), String> },
}

/// What a function is answered.
#[derive(Debug)]
pub enum ApiAnswer {
    MetricsCounterIncrement,
    Rpc(RpcAnswer),
    KvGet(KvGetAnswer),
    KvSet(KvSetAnswer),
    SqlExec(SqlExecAnswer),
    SqlBatch(SqlDoneAnswer),
    SqlMigrate(SqlDoneAnswer),
}

/// What a function is answered: an answer of the kind of its call. A counter that could not be
/// counted is not told of.
pub open spec fn answers(
    answer: ApiAnswer,
    call: ApiCall,
    storage: Set<Seq<char>>,
    databases: Set<Seq<char>>,
) -> bool {
    match (call, answer) {
        (
            ApiCall::MetricsCounterIncrement { .. },
            ApiAnswer::MetricsCounterIncrement,
        ) => true,
        (ApiCall::Rpc { pushed }, ApiAnswer::Rpc(answer)) => answer == (match pushed {
            Ok(index) => RpcAnswer::FutureId(index.0),
            Err(_) => RpcAnswer::RuntimeError,
        }),
        (ApiCall::KvGet { binding, value }, ApiAnswer::KvGet(answer)) => answer == (
        if !storage.contains(binding@) {
            KvGetAnswer::BindingNotFound
        } else {
            match value {
                Some(v) => KvGetAnswer::Value(v),
                None => KvGetAnswer::KeyNotFound,
            }
        }),
        (ApiCall::KvSet { binding }, ApiAnswer::KvSet(answer)) => answer == (if storage.contains(
            binding@,
        ) {
            KvSetAnswer::Done
        } else {
            KvSetAnswer::BindingNotFound
        }),
        (ApiCall::SqlExec { binding, result }, ApiAnswer::SqlExec(answer)) => is_exec_answer(
            answer,
            databases.contains(binding@),
            result,
        ),
        (ApiCall::SqlBatch { binding, result }, ApiAnswer::SqlBatch(answer)) => answer
            == done_answer(databases.contains(binding@), result),
        (ApiCall::SqlMigrate { binding, result }, ApiAnswer::SqlMigrate(answer)) => answer
            == done_answer(databases.contains(binding@), result),
        _ => false,
    }
}

/// What a function is answered when something was done to a database, where it is bound.
pub open spec fn done_answer(bound: bool, result: Result<(), String>) -> SqlDoneAnswer {
    if !bound {
        SqlDoneAnswer::BindingNotFound
    } else {
        match result {
            Ok(()) => SqlDoneAnswer::Done,
            Err(description) => SqlDoneAnswer::SqlError { description },
        }
    }
}

/// What a function is answered, and how its call is counted.
pub fn fx_api_handler<S, D>(
    storage: &Table<String, S>,
    databases: &Table<String, D>,
    call: ApiCall,
) -> (answered: (ApiAnswer, Option<&'static str>))
    requires
        storage.wf(),
        databases.wf(),
    ensures
        answers(answered.0, call, storage@.dom(), databases@.dom()),
        is_counted_as(
            answered.1,
            match answered.0 {
                ApiAnswer::Rpc(RpcAnswer::FutureId(_)) => Some("rpc"),
                ApiAnswer::KvGet(KvGetAnswer::Value(_)) => Some("kv::get"),
                ApiAnswer::KvSet(KvSetAnswer::Done) => Some("kv::set"),
                ApiAnswer::SqlExec(SqlExecAnswer::Rows(_)) => Some("sql::exec"),
                _ => None,
            },
        ),
{
    match call {
        ApiCall::MetricsCounterIncrement { .. } => (ApiAnswer::MetricsCounterIncrement, None),
        ApiCall::Rpc { pushed } => {
            let (answer, counted) = handle_rpc(pushed);
            (ApiAnswer::Rpc(answer), counted)
        },
        ApiCall::KvGet { binding, value } => {
            let (answer, counted) = handle_kv_get(storage, &binding, value);
            (ApiAnswer::KvGet(answer), counted)
        },
        ApiCall::KvSet { binding } => {
            let (answer, counted) = handle_kv_set(storage, &binding);
            (ApiAnswer::KvSet(answer), counted)
        },
        ApiCall::SqlExec { binding, result } => {
            let (answer, counted) = handle_sql_exec(databases, &binding, result);
            (ApiAnswer::SqlExec(answer), counted)
        },
        ApiCall::SqlBatch { binding, result } => (
            ApiAnswer::SqlBatch(handle_sql_batch(databases, &binding, result)),
            None,
        ),
        ApiCall::SqlMigrate { binding, result } => (
            ApiAnswer::SqlMigrate(handle_sql_migrate(databases, &binding, result)),
            None,
        ),
    }
}

/// What a function asks for is what is done: the same counter, function, key, value, statement, queries
/// and migrations, at the binding that it names.
pub proof fn requests_become_their_own_work<S, D>(
    storage: &Table<String, S>,
    databases: &Table<String, D>,
    request: ApiRequest,
    work: Result<ApiWork, ApiAnswer>,
    i: int,
)
    requires
        call_ensures(fx_api_work::<S, D>, (storage, databases, request), work),
    ensures
        request matches ApiRequest::MetricsCounterIncrement { counter_name, tags, delta } ==> work
            == Ok::<_, ApiAnswer>((ApiWork::Count { counter_name, tags, delta })),
        request matches ApiRequest::Rpc { function_id, method_name, argument } ==> (
        work matches Ok(ApiWork::Invoke { function_id: of, handler, argument: given }) && of@
            == function_id@ && handler@ == method_name@ && given@ == argument@),
        request matches ApiRequest::KvGet { binding_id, key } ==> (work is Ok
            <==> storage@.dom().contains(binding_id@)) && (work is Ok ==> (
        work->Ok_0 matches ApiWork::Read { binding, key: sent } && binding@ == binding_id@ && sent@
            == key@)) && (work is Err ==> work->Err_0 == ApiAnswer::KvGet(
            KvGetAnswer::BindingNotFound,
        )),
        request matches ApiRequest::KvSet { binding_id, key, value } ==> (work is Ok
            <==> storage@.dom().contains(binding_id@)) && (work is Ok ==> (
        work->Ok_0 matches ApiWork::Write { binding, key: sent, value: data } && binding@
            == binding_id@ && sent@ == key@ && data@ == value@)) && (work is Err ==> work->Err_0
            == ApiAnswer::KvSet(KvSetAnswer::BindingNotFound)),
        request matches ApiRequest::SqlExec { database, query } ==> (work is Ok
            <==> databases@.dom().contains(database@)) && (work is Ok ==> (
        work->Ok_0 matches ApiWork::Exec { binding, query: sent } && binding@ == database@
            && sent.query@ == query.statement@ && sent.params@ == query.params@)) && (work is Err
            ==> work->Err_0 == ApiAnswer::SqlExec(SqlExecAnswer::BindingNotFound)),
        request matches ApiRequest::SqlBatch { database, queries } ==> (work is Ok
            <==> databases@.dom().contains(database@)) && (work is Ok ==> (
        work->Ok_0 matches ApiWork::Batch { binding, queries: sent } && binding@ == database@
            && sent@.len() == queries@.len() && (0 <= i < queries@.len() ==> sent@[i].query@
            == queries@[i].statement@ && sent@[i].params@ == queries@[i].params@))) && (work is Err
            ==> work->Err_0 == ApiAnswer::SqlBatch(SqlDoneAnswer::BindingNotFound)),
        request matches ApiRequest::SqlMigrate { database, migrations } ==> (work is Ok
            <==> databases@.dom().contains(database@)) && (work is Ok ==> (
        work->Ok_0 matches ApiWork::Migrate { binding, migrations: sent } && binding@ == database@
            && sent@ == migrations@)) && (work is Err ==> work->Err_0 == ApiAnswer::SqlMigrate(
            SqlDoneAnswer::BindingNotFound,
        )),
{
    if work is Ok && work->Ok_0 is Batch && request is SqlBatch && 0 <= i
        < request->SqlBatch_queries@.len() {
        assert(is_query(work->Ok_0->Batch_queries@[i], request->SqlBatch_queries@[i]));
    }
}

/// What was found is what is answered, in the kind in which it was asked, and what succeeded is counted
/// under its own name.
pub proof fn calls_are_answered_in_kind<S, D>(
    storage: &Table<String, S>,
    databases: &Table<String, D>,
    call: ApiCall,
    answered: (ApiAnswer, Option<&'static str>),
)
    requires
        call_ensures(fx_api_handler::<S, D>, (storage, databases, call), answered),
    ensures
        call is MetricsCounterIncrement <==> answered.0 is MetricsCounterIncrement,
        call matches ApiCall::Rpc { pushed } ==> {
            &&& pushed matches Ok(index) ==> answered.0 == ApiAnswer::Rpc(
                RpcAnswer::FutureId(index.0),
            ) && answered.1 is Some && answered.1->0@ == "rpc"@
            &&& pushed is Err ==> answered.0 == ApiAnswer::Rpc(RpcAnswer::RuntimeError)
                && answered.1 is None
        },
        call matches ApiCall::KvGet { binding, value } ==> {
            &&& !storage@.dom().contains(binding@) ==> answered.0 == ApiAnswer::KvGet(
                KvGetAnswer::BindingNotFound,
            ) && answered.1 is None
            &&& storage@.dom().contains(binding@) && value is None ==> answered.0
                == ApiAnswer::KvGet(KvGetAnswer::KeyNotFound) && answered.1 is None
            &&& storage@.dom().contains(binding@) && value is Some ==> answered.0
                == ApiAnswer::KvGet(KvGetAnswer::Value(value->0)) && answered.1 is Some
                && answered.1->0@ == "kv::get"@
        },
        call matches ApiCall::KvSet { binding } ==> {
            &&& !storage@.dom().contains(binding@) ==> answered.0 == ApiAnswer::KvSet(
                KvSetAnswer::BindingNotFound,
            ) && answered.1 is None
            &&& storage@.dom().contains(binding@) ==> answered.0 == ApiAnswer::KvSet(
                KvSetAnswer::Done,
            ) && answered.1 is Some && answered.1->0@ == "kv::set"@
        },
        call matches ApiCall::SqlExec { binding, result } ==> {
            &&& answered.0 is SqlExec
            &&& answered.0->SqlExec_0 is BindingNotFound <==> !databases@.dom().contains(binding@)
            &&& databases@.dom().contains(binding@) && result is Ok ==> answered.0
                == ApiAnswer::SqlExec(SqlExecAnswer::Rows(result->Ok_0)) && answered.1 is Some
                && answered.1->0@ == "sql::exec"@
            &&& databases@.dom().contains(binding@) && result is Err
                ==> answered.0->SqlExec_0 is SqlError && answered.1 is None
        },
        call matches ApiCall::SqlBatch { binding, result } ==> answered.1 is None && {
            &&& !databases@.dom().contains(binding@) ==> answered.0 == ApiAnswer::SqlBatch(
                SqlDoneAnswer::BindingNotFound,
            )
            &&& databases@.dom().contains(binding@) && result is Ok ==> answered.0
                == ApiAnswer::SqlBatch(SqlDoneAnswer::Done)
            &&& databases@.dom().contains(binding@) && result is Err ==> answered.0
                == ApiAnswer::SqlBatch((SqlDoneAnswer::SqlError { description: result->Err_0 }))
        },
        call matches ApiCall::SqlMigrate { binding, result } ==> answered.1 is None && {
            &&& !databases@.dom().contains(binding@) ==> answered.0 == ApiAnswer::SqlMigrate(
                SqlDoneAnswer::BindingNotFound,
            )
            &&& databases@.dom().contains(binding@) && result is Ok ==> answered.0
                == ApiAnswer::SqlMigrate(SqlDoneAnswer::Done)
            &&& databases@.dom().contains(binding@) && result is Err ==> answered.0
                == ApiAnswer::SqlMigrate((SqlDoneAnswer::SqlError { description: result->Err_0 }))
        },
{
}

/// A statement that failed is answered with the words for its failure.
pub proof fn failed_statements_are_told_in_words<S, D>(
    storage: &Table<String, S>,
    databases: &Table<String, D>,
    binding: String,
    err: SqlError,
    message: String,
    answered: (ApiAnswer, Option<&'static str>),
)
    requires
        databases@.dom().contains(binding@),
        call_ensures(SqlError::message, (&err,), message),
        call_ensures(
            fx_api_handler::<S, D>,
            (storage, databases, ApiCall::SqlExec { binding, result: Err(err) }),
            answered,
        ),
    ensures
        answered.0 matches ApiAnswer::SqlExec(SqlExecAnswer::SqlError { description })
            && description@ == message@,
{
}

} // verus!
