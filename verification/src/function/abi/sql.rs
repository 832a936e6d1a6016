//! Calls of a function to its databases.
use vstd::prelude::*;
use vstd::slice::slice_subrange;

use crate::definitions::bindings::SqlBindingConfig;
use crate::effects::sql::{
    SqlBatchError, SqlMigrationError, SqlQueryError, SqlQueryExecutionError, SqlRow,
    SqlTaskBatchError, SqlTaskMigrationError, SqlValue,
};
use crate::function::abi::futures;
use crate::function::abi::futures::{result_future_poll, FuturePollResult};
use crate::function::memory;
use crate::poll::Poll;
use crate::resources::resource;
use crate::resources::resource::ResourceTable;
use crate::table::Table;

verus! {

/// What a query gives.
pub type SqlQueryOutcome = Result<Vec<SqlRow>, SqlQueryError>;

/// What a transaction gives.
pub type SqlBatchOutcome = Result<(), SqlBatchError>;

/// What a migration gives.
pub type SqlMigrationOutcome = Result<(), SqlMigrationError>;

/// A statement for a database.
#[derive(Debug)]
pub struct SqlExecMessage {
    pub binding: SqlBindingConfig,
    pub statement: String,
    pub params: Vec<SqlValue>,
}

/// Statements for a database that belong together.
#[derive(Debug)]
pub struct SqlBatchMessage {
    pub binding: SqlBindingConfig,
    pub queries: Vec<(String, Vec<SqlValue>)>,
}

/// Migrations for a database.
#[derive(Debug)]
pub struct SqlMigrateMessage {
    pub binding: SqlBindingConfig,
    pub migrations: Vec<String>,
}

/// The bytes in which a function has written its request.
pub fn sql_request_bytes<'a>(view: &'a [u8], req_addr: u64, req_len: u64) -> (bytes: &'a [u8])
    requires
        memory::within(view@, req_addr, req_len),
    ensures
        bytes@ == memory::bytes_at(view@, req_addr, req_len),
{
    let size: usize = view.len();
    slice_subrange(view, req_addr as usize, (req_addr + req_len) as usize)
}

/// A call to execute a statement. A message is sent, or the call has failed already.
pub fn fx_sql_exec_handler(
    bindings: &Table<String, SqlBindingConfig>,
    binding: String,
    statement: String,
    params: Vec<SqlValue>,
) -> (message: Result<SqlExecMessage, SqlQueryError>)
    requires
        bindings.wf(),
    ensures
        match message {
            Ok(m) => bindings@.dom().contains(binding@) && m.binding@ == bindings@[binding@]@
                && m.statement == statement && m.params == params,
            Err(err) => !bindings@.dom().contains(binding@) && err is BindingNotFound,
        },
{
    match bindings.get(&binding) {
        None => Err(SqlQueryError::BindingNotFound),
        Some(found) => Ok(SqlExecMessage { binding: found.clone(), statement, params }),
    }
}

/// What a statement gives: `answer` is nothing where the database gave no answer.
pub fn sql_exec_outcome(
    answer: Option<Result<Vec<SqlRow>, SqlQueryExecutionError>>,
) -> (outcome: Result<Vec<SqlRow>, SqlQueryError>)
    ensures
        outcome == (match answer {
            None => Err::<Vec<SqlRow>, _>(SqlQueryError::RuntimeShutdown),
            Some(Ok(rows)) => Ok(rows),
            Some(Err(SqlQueryExecutionError::DatabaseBusy)) => Err(SqlQueryError::DatabaseBusy),
            Some(Err(SqlQueryExecutionError::StatementError(reason))) => Err(
                SqlQueryError::StatementError(reason),
            ),
        }),
{
    match answer {
        None => Err(SqlQueryError::RuntimeShutdown),
        Some(Ok(rows)) => Ok(rows),
        Some(Err(err)) => Err(SqlQueryError::from(err)),
    }
}

/// A call to execute statements together. A message is sent, or the call has failed already.
pub fn fx_sql_batch_handler(
    bindings: &Table<String, SqlBindingConfig>,
    binding: String,
    queries: Vec<(String, Vec<SqlValue>)>,
) -> (message: Result<SqlBatchMessage, SqlBatchError>)
    requires
        bindings.wf(),
    ensures
        match message {
            Ok(m) => bindings@.dom().contains(binding@) && m.binding@ == bindings@[binding@]@
                && m.queries == queries,
            Err(err) => !bindings@.dom().contains(binding@) && err is BindingNotFound,
        },
{
    match bindings.get(&binding) {
        None => Err(SqlBatchError::BindingNotFound),
        Some(found) => Ok(SqlBatchMessage { binding: found.clone(), queries }),
    }
}

/// What a batch gives: `answer` is nothing where the database gave no answer.
pub fn sql_batch_outcome(answer: Option<Result<(), SqlTaskBatchError>>) -> (outcome: Result<
    (),
    SqlBatchError,
>)
    ensures
        outcome == (match answer {
            None => Err::<(), _>(SqlBatchError::RuntimeShutdown),
            Some(Ok(())) => Ok(()),
            Some(Err(SqlTaskBatchError::DatabaseBusy)) => Err(SqlBatchError::DatabaseBusy),
            Some(Err(SqlTaskBatchError::StatementFailed { reason })) => Err(
                SqlBatchError::StatementFailed { reason },
            ),
        }),
{
    match answer {
        None => Err(SqlBatchError::RuntimeShutdown),
        Some(Ok(())) => Ok(()),
        Some(Err(err)) => Err(SqlBatchError::from(err)),
    }
}

/// A call to migrate a database. A message is sent, or the call has failed already.
pub fn fx_sql_migrate_handler(
    bindings: &Table<String, SqlBindingConfig>,
    binding: String,
    migrations: Vec<String>,
) -> (message: Result<SqlMigrateMessage, SqlMigrationError>)
    requires
        bindings.wf(),
    ensures
        match message {
            Ok(m) => bindings@.dom().contains(binding@) && m.binding@ == bindings@[binding@]@
                && m.migrations == migrations,
            Err(err) => !bindings@.dom().contains(binding@) && err is BindingNotFound,
        },
{
    match bindings.get(&binding) {
        None => Err(SqlMigrationError::BindingNotFound),
        Some(found) => Ok(SqlMigrateMessage { binding: found.clone(), migrations }),
    }
}

/// What a migration gives: `answer` is nothing where the message was not sent or the database
/// gave no answer.
pub fn sql_migrate_outcome(answer: Option<Result<(), SqlTaskMigrationError>>) -> (outcome: Result<
    (),
    SqlMigrationError,
>)
    ensures
        outcome == (match answer {
            None => Err::<(), _>(SqlMigrationError::RuntimeShutdown),
            Some(Ok(())) => Ok(()),
            Some(Err(SqlTaskMigrationError::DatabaseBusy)) => Err(SqlMigrationError::DatabaseBusy),
            Some(Err(SqlTaskMigrationError::MigrationExecutionError { message })) => Err(
                SqlMigrationError::MigrationExecutionError { message },
            ),
            Some(Err(SqlTaskMigrationError::SqlError { message })) => Err(
                SqlMigrationError::SqlError { message },
            ),
        }),
{
    match answer {
        None => Err(SqlMigrationError::RuntimeShutdown),
        Some(Ok(())) => Ok(()),
        Some(Err(err)) => Err(SqlMigrationError::from(err)),
    }
}

/// Says what a function is told about a query.
pub fn fx_sql_query_result_future_poll<F>(
    operations: &mut ResourceTable<F>,
    results: &mut ResourceTable<SqlQueryOutcome>,
    resource_id: u64,
    polled: Poll<SqlQueryOutcome>,
) -> (told: FuturePollResult)
    requires
        old(operations).wf(),
        old(results).wf(),
        polled is Ready ==> old(results).has_room(),
        old(operations)@.dom().contains(resource::slot_key(resource_id)),
    ensures
        final(operations).wf(),
        final(results).wf(),
        told == futures::told_of(polled, told.resource_id),
        match polled {
            Poll::Pending => *final(operations) == *old(operations) && *final(results) == *old(results),
            Poll::Ready(outcome) => {
                &&& final(operations)@ == old(operations)@.remove(resource::slot_key(resource_id))
                &&& !old(results)@.dom().contains(told.resource_id)
                &&& resource::slot_key(told.resource_id) == told.resource_id
                &&& final(results)@ == old(results)@.insert(told.resource_id, outcome)
            },
        },
{
    result_future_poll(operations, results, resource_id, polled)
}

/// Says what a function is told about a transaction.
pub fn fx_sql_batch_result_future_poll<F>(
    operations: &mut ResourceTable<F>,
    results: &mut ResourceTable<SqlBatchOutcome>,
    resource_id: u64,
    polled: Poll<SqlBatchOutcome>,
) -> (told: FuturePollResult)
    requires
        old(operations).wf(),
        old(results).wf(),
        polled is Ready ==> old(results).has_room(),
        old(operations)@.dom().contains(resource::slot_key(resource_id)),
    ensures
        final(operations).wf(),
        final(results).wf(),
        told == futures::told_of(polled, told.resource_id),
        match polled {
            Poll::Pending => *final(operations) == *old(operations) && *final(results) == *old(results),
            Poll::Ready(outcome) => {
                &&& final(operations)@ == old(operations)@.remove(resource::slot_key(resource_id))
                &&& !old(results)@.dom().contains(told.resource_id)
                &&& resource::slot_key(told.resource_id) == told.resource_id
                &&& final(results)@ == old(results)@.insert(told.resource_id, outcome)
            },
        },
{
    result_future_poll(operations, results, resource_id, polled)
}

/// Takes the outcome of a query that a function asks for, to be written out for it.
pub fn fx_sql_query_result_serialize(
    results: &mut ResourceTable<SqlQueryOutcome>,
    resource_id: u64,
) -> (outcome: SqlQueryOutcome)
    requires
        old(results).wf(),
        old(results)@.dom().contains(resource::slot_key(resource_id)),
    ensures
        final(results).wf(),
        final(results)@ == old(results)@.remove(resource::slot_key(resource_id)),
        outcome == old(results)@[resource::slot_key(resource_id)],
{
    results.remove(resource_id).unwrap()
}

/// Takes the outcome of a transaction that a function asks for, to be written out for it.
pub fn fx_sql_batch_result_serialize(
    results: &mut ResourceTable<SqlBatchOutcome>,
    resource_id: u64,
) -> (outcome: SqlBatchOutcome)
    requires
        old(results).wf(),
        old(results)@.dom().contains(resource::slot_key(resource_id)),
    ensures
        final(results).wf(),
        final(results)@ == old(results)@.remove(resource::slot_key(resource_id)),
        outcome == old(results)@[resource::slot_key(resource_id)],
{
    results.remove(resource_id).unwrap()
}

/// Takes the outcome of a migration that a function asks for, to be written out for it.
pub fn fx_migration_result_serialize(
    results: &mut ResourceTable<SqlMigrationOutcome>,
    resource_id: u64,
) -> (outcome: SqlMigrationOutcome)
    requires
        old(results).wf(),
        old(results)@.dom().contains(resource::slot_key(resource_id)),
    ensures
        final(results).wf(),
        final(results)@ == old(results)@.remove(resource::slot_key(resource_id)),
        outcome == old(results)@[resource::slot_key(resource_id)],
{
    results.remove(resource_id).unwrap()
}

/// What a function asks of a database goes to the database of the binding that it names, with its own
/// statement, parameters, queries and migrations; it is refused exactly where there is no such binding.
pub proof fn queries_go_to_the_bound_database(
    bindings: &Table<String, SqlBindingConfig>,
    binding: String,
    statement: String,
    params: Vec<SqlValue>,
    queries: Vec<(String, Vec<SqlValue>)>,
    migrations: Vec<String>,
    executed: Result<SqlExecMessage, SqlQueryError>,
    batch: Result<SqlBatchMessage, SqlBatchError>,
    migrated: Result<SqlMigrateMessage, SqlMigrationError>,
)
    requires
        call_ensures(fx_sql_exec_handler, (bindings, binding, statement, params), executed),
        call_ensures(fx_sql_batch_handler, (bindings, binding, queries), batch),
        call_ensures(fx_sql_migrate_handler, (bindings, binding, migrations), migrated),
    ensures
        executed is Ok <==> bindings@.dom().contains(binding@),
        batch is Ok <==> bindings@.dom().contains(binding@),
        migrated is Ok <==> bindings@.dom().contains(binding@),
        executed is Err ==> executed->Err_0 is BindingNotFound,
        batch is Err ==> batch->Err_0 is BindingNotFound,
        migrated is Err ==> migrated->Err_0 is BindingNotFound,
        executed is Ok ==> executed->Ok_0.binding@ == bindings@[binding@]@
            && executed->Ok_0.statement@ == statement@ && executed->Ok_0.params@ == params@,
        batch is Ok ==> batch->Ok_0.binding@ == bindings@[binding@]@ && batch->Ok_0.queries@
            == queries@,
        migrated is Ok ==> migrated->Ok_0.binding@ == bindings@[binding@]@
            && migrated->Ok_0.migrations@ == migrations@,
{
}

/// What the database answered is what the function is told: the rows as they are, each failure as what
/// it was with its reason, and no answer as a shutdown.
pub proof fn answers_are_told_as_they_came(
    rows: Option<Result<Vec<SqlRow>, SqlQueryExecutionError>>,
    told_rows: Result<Vec<SqlRow>, SqlQueryError>,
    batch: Option<Result<(), SqlTaskBatchError>>,
    told_batch: Result<(), SqlBatchError>,
    migrated: Option<Result<(), SqlTaskMigrationError>>,
    told_migrated: Result<(), SqlMigrationError>,
    reason: String,
    details: Option<String>,
)
    requires
        call_ensures(sql_exec_outcome, (rows,), told_rows),
        call_ensures(sql_batch_outcome, (batch,), told_batch),
        call_ensures(sql_migrate_outcome, (migrated,), told_migrated),
    ensures
        told_rows matches Ok(got) ==> (rows matches Some(Ok(given)) && given == got),
        rows matches Some(Ok(_)) ==> told_rows is Ok,
        rows is None <==> (told_rows matches Err(SqlQueryError::RuntimeShutdown)),
        rows == Some(Err::<Vec<SqlRow>, _>(SqlQueryExecutionError::DatabaseBusy)) <==> (
        told_rows matches Err(SqlQueryError::DatabaseBusy)),
        rows == Some(Err::<Vec<SqlRow>, _>(SqlQueryExecutionError::StatementError(reason)))
            <==> told_rows == Err::<Vec<SqlRow>, _>(SqlQueryError::StatementError(reason)),
        told_batch is Ok <==> (batch matches Some(Ok(_))),
        batch is None <==> (told_batch matches Err(SqlBatchError::RuntimeShutdown)),
        (batch matches Some(Err(SqlTaskBatchError::DatabaseBusy))) <==> (told_batch matches Err(
            SqlBatchError::DatabaseBusy,
        )),
        batch == Some(Err::<(), _>(SqlTaskBatchError::StatementFailed { reason })) ==> told_batch
            == Err::<(), _>(SqlBatchError::StatementFailed { reason }),
        told_migrated is Ok <==> (migrated matches Some(Ok(_))),
        migrated is None <==> (told_migrated matches Err(SqlMigrationError::RuntimeShutdown)),
        (migrated matches Some(Err(SqlTaskMigrationError::DatabaseBusy))) <==> (
        told_migrated matches Err(SqlMigrationError::DatabaseBusy)),
        migrated == Some(
            Err::<(), _>(SqlTaskMigrationError::MigrationExecutionError { message: details }),
        ) ==> told_migrated == Err::<(), _>(
            SqlMigrationError::MigrationExecutionError { message: details },
        ),
        migrated == Some(Err::<(), _>(SqlTaskMigrationError::SqlError { message: reason }))
            ==> told_migrated == Err::<(), _>(SqlMigrationError::SqlError { message: reason }),
{
}

/// The bytes of a request are those of its part of the memory, one by one.
pub proof fn sql_requests_are_read_from_their_part<'a>(
    view: &'a [u8],
    req_addr: u64,
    req_len: u64,
    bytes: &'a [u8],
)
    requires
        req_addr + req_len <= view@.len(),
        call_ensures(sql_request_bytes, (view, req_addr, req_len), bytes),
    ensures
        bytes@.len() == req_len,
        forall|i: int| 0 <= i < req_len ==> #[trigger] bytes@[i] == view@[req_addr + i],
{
}

/// What came of a query, a batch and migrations is told as it was kept, once.
pub proof fn kept_results_are_told(
    resource_id: u64,
    queried: SqlQueryOutcome,
    batch: SqlBatchOutcome,
    migrated: SqlMigrationOutcome,
)
    ensures
        forall|results: &mut ResourceTable<SqlQueryOutcome>| #[trigger]
            call_ensures(fx_sql_query_result_serialize, (results, resource_id), queried) ==> queried
                == results@[resource::slot_key(resource_id)] && !final(results)@.dom().contains(
                resource::slot_key(resource_id),
            ),
        forall|results: &mut ResourceTable<SqlBatchOutcome>| #[trigger]
            call_ensures(fx_sql_batch_result_serialize, (results, resource_id), batch) ==> batch
                == results@[resource::slot_key(resource_id)] && !final(results)@.dom().contains(
                resource::slot_key(resource_id),
            ),
        forall|results: &mut ResourceTable<SqlMigrationOutcome>| #[trigger]
            call_ensures(fx_migration_result_serialize, (results, resource_id), migrated)
                ==> migrated == results@[resource::slot_key(resource_id)] && !final(
                results
            )@.dom().contains(resource::slot_key(resource_id)),
{
}

/// What came of a query or a batch is kept under the number that the function is told once it is there.
pub proof fn answered_queries_are_kept<F>(
    resource_id: u64,
    queried: Poll<SqlQueryOutcome>,
    told_query: FuturePollResult,
    batch: Poll<SqlBatchOutcome>,
    told_batch: FuturePollResult,
)
    ensures
        forall|operations: &mut ResourceTable<F>, results: &mut ResourceTable<SqlQueryOutcome>|
            #[trigger]
            call_ensures(
                fx_sql_query_result_future_poll::<F>,
                (operations, results, resource_id, queried),
                told_query,
            ) ==> {
                &&& told_query.tag == 1 <==> queried is Pending
                &&& told_query.tag == 0 <==> queried is Ready
                &&& queried is Ready ==> final(results)@.dom().contains(
                    resource::slot_key(told_query.resource_id),
                ) && final(results)@[resource::slot_key(told_query.resource_id)]
                    == queried->Ready_0 && !final(operations)@.dom().contains(
                    resource::slot_key(resource_id),
                )
            },
        forall|operations: &mut ResourceTable<F>, results: &mut ResourceTable<SqlBatchOutcome>|
            #[trigger]
            call_ensures(
                fx_sql_batch_result_future_poll::<F>,
                (operations, results, resource_id, batch),
                told_batch,
            ) ==> {
                &&& told_batch.tag == 1 <==> batch is Pending
                &&& told_batch.tag == 0 <==> batch is Ready
                &&& batch is Ready ==> final(results)@.dom().contains(
                    resource::slot_key(told_batch.resource_id),
                ) && final(results)@[resource::slot_key(told_batch.resource_id)] == batch->Ready_0
                    && !final(operations)@.dom().contains(resource::slot_key(resource_id))
            },
{
}

} // verus!
