//! Databases: values, queries, what came back, and what can go wrong.
use vstd::prelude::*;

use crate::text;
use crate::text::{decode_text, owned};

verus! {

/// A value of a database. A real number is held as its bits.
#[derive(Debug)]
pub enum SqlValue {
    Null,
    Integer(i64),
    Real(u64),
    Text(String),
    Blob(Vec<u8>),
}

/// What a [`SqlValue`] is, whatever strings and lists hold it.
pub enum SqlValueView {
    Null,
    Integer(i64),
    Real(u64),
    Text(Seq<char>),
    Blob(Seq<u8>),
}

impl View for SqlValue {
    type V = SqlValueView;

    open spec fn view(&self) -> SqlValueView {
        match self {
            SqlValue::Null => SqlValueView::Null,
            SqlValue::Integer(v) => SqlValueView::Integer(*v),
            SqlValue::Real(v) => SqlValueView::Real(*v),
            SqlValue::Text(v) => SqlValueView::Text(v@),
            SqlValue::Blob(v) => SqlValueView::Blob(v@),
        }
    }
}

/// Why a value is not of the type that was asked for.
#[derive(Clone, Copy, Debug, PartialEq, Eq, Structural)]
pub enum SqlMappingError {
    /// wrong type
    WrongType,
}

impl SqlValue {
    /// The value as an integer.
    pub fn to_i64(&self) -> (value: Result<i64, SqlMappingError>)
        ensures
            value == (match *self {
                SqlValue::Integer(v) => Ok::<i64, SqlMappingError>(v),
                _ => Err(SqlMappingError::WrongType),
            }),
    {
        match self {
            SqlValue::Integer(v) => Ok(*v),
            _ => Err(SqlMappingError::WrongType),
        }
    }

    /// The value as a text.
    pub fn to_text(&self) -> (value: Result<String, SqlMappingError>)
        ensures
            match *self {
                SqlValue::Text(v) => value is Ok && value->Ok_0@ == v@,
                _ => value == Err::<String, _>(SqlMappingError::WrongType),
            },
    {
        match self {
            SqlValue::Text(v) => Ok(v.clone()),
            _ => Err(SqlMappingError::WrongType),
        }
    }
}

/// A row that is handed to a function.
#[derive(Debug)]
pub struct SqlRow {
    pub columns: Vec<SqlValue>,
}

/// A query with its parameters.
#[derive(Debug)]
pub struct Query {
    pub query: String,
    pub params: Vec<SqlValue>,
}

impl Query {
    pub fn new(query: String) -> (out: Self)
        ensures
            out.query == query,
            out.params@.len() == 0,
    {
        Query { query, params: Vec::new() }
    }

    pub fn with_param(self, param: SqlValue) -> (out: Self)
        ensures
            out.query == self.query,
            out.params@ == self.params@.push(param),
    {
        let mut params = self.params;
        params.push(param);
        Query { query: self.query, params }
    }
}

/// What a query returned.
#[derive(Debug)]
pub struct QueryResult {
    pub rows: Vec<Row>,
}

/// A row of a result.
#[derive(Debug)]
pub struct Row {
    pub columns: Vec<SqlValue>,
}

/// Why a query failed.
#[derive(Debug)]
pub enum SqlError {
    /// failed to decode field
    FieldDecode { reason: String },
    /// failed to get column
    ColumnGet { reason: String },
    /// failed to read row
    RowRead { reason: String },
    /// failed to run query
    QueryRun { reason: String },
    /// failed to open database connection
    ConnectionOpen { reason: String },
}

/// What a [`SqlError`] is, whatever strings hold it.
pub enum SqlErrorView {
    FieldDecode(Seq<char>),
    ColumnGet(Seq<char>),
    RowRead(Seq<char>),
    QueryRun(Seq<char>),
    ConnectionOpen(Seq<char>),
}

impl View for SqlError {
    type V = SqlErrorView;

    open spec fn view(&self) -> SqlErrorView {
        match self {
            SqlError::FieldDecode { reason } => SqlErrorView::FieldDecode(reason@),
            SqlError::ColumnGet { reason } => SqlErrorView::ColumnGet(reason@),
            SqlError::RowRead { reason } => SqlErrorView::RowRead(reason@),
            SqlError::QueryRun { reason } => SqlErrorView::QueryRun(reason@),
            SqlError::ConnectionOpen { reason } => SqlErrorView::ConnectionOpen(reason@),
        }
    }
}

/// What a failed query is said to have failed of.
pub open spec fn sql_error_message(err: SqlErrorView) -> Seq<char> {
    match err {
        SqlErrorView::FieldDecode(_) => "failed to decode field"@,
        SqlErrorView::ColumnGet(_) => "failed to get column"@,
        SqlErrorView::RowRead(_) => "failed to read row"@,
        SqlErrorView::QueryRun(reason) => "failed to run query: "@ + reason,
        SqlErrorView::ConnectionOpen(_) => "failed to open database connection"@,
    }
}

impl SqlError {
    /// What the failure is described as to a function.
    pub fn message(&self) -> (message: String)
        ensures
            message@ == sql_error_message(self@),
    {
        match self {
            SqlError::FieldDecode { .. } => owned("failed to decode field"),
            SqlError::ColumnGet { .. } => owned("failed to get column"),
            SqlError::RowRead { .. } => owned("failed to read row"),
            SqlError::QueryRun { reason } => {
                let mut message = owned("failed to run query: ");
                message.push_str(reason.as_str());
                message
            },
            SqlError::ConnectionOpen { .. } => owned("failed to open database connection"),
        }
    }
}

/// A column as the database hands it out: a text is bytes that may not be one.
#[derive(Debug)]
pub enum RawColumn {
    Null,
    Integer(i64),
    Real(u64),
    Text(Vec<u8>),
    Blob(Vec<u8>),
}

/// A row as the database hands it out: each column, or why it could not be had.
#[derive(Debug)]
pub struct RawRow {
    pub columns: Vec<Result<RawColumn, String>>,
}

/// What `std::str::Utf8Error` says of bytes that are not UTF-8.
pub uninterp spec fn utf8_fault(bytes: Seq<u8>) -> Seq<char>;

/// `std::str::Utf8Error`'s text for bytes that are not UTF-8: where they stop being so.
#[verifier::external_body]
fn utf8_fault_text(bytes: &[u8]) -> (fault: String)
    requires
        text::utf8_text(bytes@) is None,
    ensures
        fault@ == utf8_fault(bytes@),
{
    std::str::from_utf8(bytes).unwrap_err().to_string()
}

/// What becomes of a column.
pub open spec fn column_value(column: Result<RawColumn, String>) -> Result<
    SqlValueView,
    SqlErrorView,
> {
    match column {
        Err(reason) => Err(SqlErrorView::ColumnGet(reason@)),
        Ok(RawColumn::Null) => Ok(SqlValueView::Null),
        Ok(RawColumn::Integer(v)) => Ok(SqlValueView::Integer(v)),
        Ok(RawColumn::Real(v)) => Ok(SqlValueView::Real(v)),
        Ok(RawColumn::Text(v)) => match text::utf8_text(v@) {
            Some(t) => Ok(SqlValueView::Text(t)),
            None => Err(SqlErrorView::FieldDecode(utf8_fault(v@))),
        },
        Ok(RawColumn::Blob(v)) => Ok(SqlValueView::Blob(v@)),
    }
}

/// What becomes of the columns of a row: their values, or the first failure among them.
pub open spec fn row_values(columns: Seq<Result<RawColumn, String>>) -> Result<
    Seq<SqlValueView>,
    SqlErrorView,
>
    decreases columns.len(),
{
    if columns.len() == 0 {
        Ok(Seq::empty())
    } else {
        match row_values(columns.drop_last()) {
            Err(err) => Err(err),
            Ok(values) => match column_value(columns.last()) {
                Err(err) => Err(err),
                Ok(value) => Ok(values.push(value)),
            },
        }
    }
}

/// What becomes of rows: their values, or the first failure among them.
pub open spec fn all_values(rows: Seq<Result<RawRow, String>>) -> Result<
    Seq<Seq<SqlValueView>>,
    SqlErrorView,
>
    decreases rows.len(),
{
    if rows.len() == 0 {
        Ok(Seq::empty())
    } else {
        match all_values(rows.drop_last()) {
            Err(err) => Err(err),
            Ok(values) => match rows.last() {
                Err(reason) => Err(SqlErrorView::RowRead(reason@)),
                Ok(row) => match row_values(row.columns@) {
                    Err(err) => Err(err),
                    Ok(columns) => Ok(values.push(columns)),
                },
            },
        }
    }
}

/// The values of a row.
pub open spec fn values_of(columns: Seq<SqlValue>) -> Seq<SqlValueView> {
    Seq::new(columns.len(), |i: int| columns[i]@)
}

/// The values of rows.
pub open spec fn rows_of(rows: Seq<Row>) -> Seq<Seq<SqlValueView>> {
    Seq::new(rows.len(), |i: int| values_of(rows[i].columns@))
}

fn read_column(column: &Result<RawColumn, String>) -> (value: Result<SqlValue, SqlError>)
    ensures
        match value {
            Ok(v) => column_value(*column) == Ok::<SqlValueView, SqlErrorView>(v@),
            Err(err) => column_value(*column) == Err::<SqlValueView, SqlErrorView>(err@),
        },
{
    match column {
        Err(reason) => Err(SqlError::ColumnGet { reason: reason.clone() }),
        Ok(RawColumn::Null) => Ok(SqlValue::Null),
        Ok(RawColumn::Integer(v)) => Ok(SqlValue::Integer(*v)),
        Ok(RawColumn::Real(v)) => Ok(SqlValue::Real(*v)),
        Ok(RawColumn::Text(v)) => match decode_text(v.as_slice()) {
            Some(t) => Ok(SqlValue::Text(owned(t))),
            None => Err(SqlError::FieldDecode { reason: utf8_fault_text(v.as_slice()) }),
        },
        Ok(RawColumn::Blob(v)) => Ok(SqlValue::Blob(vstd::slice::slice_to_vec(v.as_slice()))),
    }
}

proof fn lemma_row_stops(columns: Seq<Result<RawColumn, String>>, i: int)
    requires
        0 <= i <= columns.len(),
        row_values(columns.take(i)) is Err,
    ensures
        row_values(columns) == row_values(columns.take(i)),
    decreases columns.len(),
{
    if i == columns.len() {
        assert(columns.take(i) =~= columns);
    } else {
        assert(columns.drop_last().take(i) =~= columns.take(i));
        lemma_row_stops(columns.drop_last(), i);
    }
}

proof fn lemma_rows_stop(rows: Seq<Result<RawRow, String>>, i: int)
    requires
        0 <= i <= rows.len(),
        all_values(rows.take(i)) is Err,
    ensures
        all_values(rows) == all_values(rows.take(i)),
    decreases rows.len(),
{
    if i == rows.len() {
        assert(rows.take(i) =~= rows);
    } else {
        assert(rows.drop_last().take(i) =~= rows.take(i));
        lemma_rows_stop(rows.drop_last(), i);
    }
}

fn read_row(row: &RawRow) -> (out: Result<Row, SqlError>)
    ensures
        match out {
            Ok(r) => row_values(row.columns@) == Ok::<Seq<SqlValueView>, SqlErrorView>(
                values_of(r.columns@),
            ),
            Err(err) => row_values(row.columns@) == Err::<Seq<SqlValueView>, SqlErrorView>(err@),
        },
{
    let mut columns: Vec<SqlValue> = Vec::new();
    let mut i: usize = 0;
    proof {
        assert(values_of(columns@) =~= Seq::<SqlValueView>::empty());
    }
    while i < row.columns.len()
        invariant
            i <= row.columns@.len(),
            row_values(row.columns@.take(i as int)) == Ok::<Seq<SqlValueView>, SqlErrorView>(
                values_of(columns@),
            ),
        decreases row.columns@.len() - i,
    {
        let ghost next = row.columns@.take(i + 1);
        let ghost before = columns@;
        proof {
            assert(next.drop_last() =~= row.columns@.take(i as int));
            assert(next.last() == row.columns@[i as int]);
        }
        match read_column(&row.columns[i]) {
            Ok(value) => {
                columns.push(value);
                assert(values_of(columns@) =~= values_of(before).push(value@));
            },
            Err(err) => {
                proof {
                    lemma_row_stops(row.columns@, i + 1);
                }
                return Err(err);
            },
        }
        i = i + 1;
    }
    assert(row.columns@.take(row.columns@.len() as int) =~= row.columns@);
    Ok(Row { columns })
}

/// The result of a query whose rows were read one after the other until the end: `rows` are what
/// the database gave each time, a row or why there was none.
pub fn read_rows(rows: &Vec<Result<RawRow, String>>) -> (result: Result<QueryResult, SqlError>)
    ensures
        match result {
            Ok(r) => all_values(rows@) == Ok::<Seq<Seq<SqlValueView>>, SqlErrorView>(
                rows_of(r.rows@),
            ),
            Err(err) => all_values(rows@) == Err::<Seq<Seq<SqlValueView>>, SqlErrorView>(err@),
        },
{
    let mut read: Vec<Row> = Vec::new();
    let mut i: usize = 0;
    proof {
        assert(rows_of(read@) =~= Seq::<Seq<SqlValueView>>::empty());
    }
    while i < rows.len()
        invariant
            i <= rows@.len(),
            all_values(rows@.take(i as int)) == Ok::<Seq<Seq<SqlValueView>>, SqlErrorView>(
                rows_of(read@),
            ),
        decreases rows@.len() - i,
    {
        let ghost next = rows@.take(i + 1);
        let ghost before = read@;
        proof {
            assert(next.drop_last() =~= rows@.take(i as int));
            assert(next.last() == rows@[i as int]);
        }
        match &rows[i] {
            Err(reason) => {
                proof {
                    lemma_rows_stop(rows@, i + 1);
                }
                return Err(SqlError::RowRead { reason: reason.clone() });
            },
            Ok(row) => match read_row(row) {
                Ok(row) => {
                    read.push(row);
                    assert(rows_of(read@) =~= rows_of(before).push(values_of(row.columns@)));
                },
                Err(err) => {
                    proof {
                        lemma_rows_stop(rows@, i + 1);
                    }
                    return Err(err);
                },
            },
        }
        i = i + 1;
    }
    assert(rows@.take(rows@.len() as int) =~= rows@);
    Ok(QueryResult { rows: read })
}

/// The result of a query: `prepared` is why it could not be prepared or run, or what came back
/// when its rows were read.
pub fn exec(prepared: Result<Vec<Result<RawRow, String>>, String>) -> (result: Result<
    QueryResult,
    SqlError,
>)
    ensures
        match prepared {
            Err(reason) => result is Err && result->Err_0@ == SqlErrorView::QueryRun(reason@),
            Ok(rows) => match result {
                Ok(r) => all_values(rows@) == Ok::<Seq<Seq<SqlValueView>>, SqlErrorView>(
                    rows_of(r.rows@),
                ),
                Err(err) => all_values(rows@) == Err::<Seq<Seq<SqlValueView>>, SqlErrorView>(err@),
            },
        },
{
    match prepared {
        Err(reason) => Err(SqlError::QueryRun { reason }),
        Ok(rows) => read_rows(&rows),
    }
}

/// Why a migration failed, as the database reports it.
#[derive(Debug)]
pub enum SqlTaskMigrationError {
    DatabaseBusy,
    MigrationExecutionError { message: Option<String> },
    SqlError { message: String },
}

/// Why a migration failed.
#[derive(Debug)]
pub enum SqlMigrationError {
    /// binding with this name is not found
    BindingNotFound,
    /// database is locked
    DatabaseBusy,
    /// migration execution error
    MigrationExecutionError { message: Option<String> },
    /// sql error: like a migration execution error, with more information
    SqlError { message: String },
    /// runtime is being shut down
    RuntimeShutdown,
    UnknownError,
    RuntimeError,
}

impl From<SqlTaskMigrationError> for SqlMigrationError {
    fn from(err: SqlTaskMigrationError) -> (out: Self) {
        match err {
            SqlTaskMigrationError::DatabaseBusy => SqlMigrationError::DatabaseBusy,
            SqlTaskMigrationError::MigrationExecutionError { message } =>
                SqlMigrationError::MigrationExecutionError { message },
            SqlTaskMigrationError::SqlError { message } => SqlMigrationError::SqlError { message },
        }
    }
}

impl vstd::std_specs::convert::FromSpecImpl<SqlTaskMigrationError> for SqlMigrationError {
    open spec fn obeys_from_spec() -> bool {
        true
    }

    open spec fn from_spec(err: SqlTaskMigrationError) -> Self {
        match err {
            SqlTaskMigrationError::DatabaseBusy => SqlMigrationError::DatabaseBusy,
            SqlTaskMigrationError::MigrationExecutionError { message } =>
                SqlMigrationError::MigrationExecutionError { message },
            SqlTaskMigrationError::SqlError { message } => SqlMigrationError::SqlError { message },
        }
    }
}

/// Why a batch failed, as the database reports it.
#[derive(Debug)]
pub enum SqlTaskBatchError {
    DatabaseBusy,
    StatementFailed { reason: String },
}

/// Why a batch failed.
#[derive(Debug)]
pub enum SqlBatchError {
    /// binding with this name is not found
    BindingNotFound,
    /// database is locked
    DatabaseBusy,
    /// statement failed
    StatementFailed { reason: String },
    /// runtime is being shut down
    RuntimeShutdown,
    UnknownError,
    RuntimeError,
}

impl From<SqlTaskBatchError> for SqlBatchError {
    fn from(err: SqlTaskBatchError) -> (out: Self) {
        match err {
            SqlTaskBatchError::DatabaseBusy => SqlBatchError::DatabaseBusy,
            SqlTaskBatchError::StatementFailed { reason } => SqlBatchError::StatementFailed {
                reason,
            },
        }
    }
}

impl vstd::std_specs::convert::FromSpecImpl<SqlTaskBatchError> for SqlBatchError {
    open spec fn obeys_from_spec() -> bool {
        true
    }

    open spec fn from_spec(err: SqlTaskBatchError) -> Self {
        match err {
            SqlTaskBatchError::DatabaseBusy => SqlBatchError::DatabaseBusy,
            SqlTaskBatchError::StatementFailed { reason } => SqlBatchError::StatementFailed {
                reason,
            },
        }
    }
}

/// Why a query failed while it was executed.
#[derive(Debug)]
pub enum SqlQueryExecutionError {
    /// database is locked
    DatabaseBusy,
    /// sql statement error
    StatementError(String),
}

/// Why a query of a function failed.
#[derive(Debug)]
pub enum SqlQueryError {
    /// binding with this name is not found
    BindingNotFound,
    /// database is locked
    DatabaseBusy,
    /// runtime is being shutdown
    RuntimeShutdown,
    /// sql statement error
    StatementError(String),
    TextValueDecodeError,
    UnknownError,
    RuntimeError,
}

impl From<SqlQueryExecutionError> for SqlQueryError {
    fn from(err: SqlQueryExecutionError) -> (out: Self) {
        match err {
            SqlQueryExecutionError::DatabaseBusy => SqlQueryError::DatabaseBusy,
            SqlQueryExecutionError::StatementError(reason) => SqlQueryError::StatementError(reason),
        }
    }
}

impl vstd::std_specs::convert::FromSpecImpl<SqlQueryExecutionError> for SqlQueryError {
    open spec fn obeys_from_spec() -> bool {
        true
    }

    open spec fn from_spec(err: SqlQueryExecutionError) -> Self {
        match err {
            SqlQueryExecutionError::DatabaseBusy => SqlQueryError::DatabaseBusy,
            SqlQueryExecutionError::StatementError(reason) => SqlQueryError::StatementError(reason),
        }
    }
}

/// Whether a value is the one that a column of the database holds: of the same type and with the same
/// content, the bytes of a text decoded.
pub open spec fn is_value_of(value: SqlValue, column: Result<RawColumn, String>) -> bool {
    match value {
        SqlValue::Null => column matches Ok(RawColumn::Null),
        SqlValue::Integer(v) => column matches Ok(RawColumn::Integer(given)) && v == given,
        SqlValue::Real(v) => column matches Ok(RawColumn::Real(given)) && v == given,
        SqlValue::Text(v) => column matches Ok(RawColumn::Text(bytes)) && text::utf8_text(bytes@)
            == Some(v@),
        SqlValue::Blob(v) => column matches Ok(RawColumn::Blob(bytes)) && v@ == bytes@,
    }
}

/// Whether a column can be read: it was had, and if it is a text it can be decoded.
pub open spec fn is_readable(column: Result<RawColumn, String>) -> bool {
    column matches Ok(column) && (column matches RawColumn::Text(bytes) ==> text::utf8_text(
        bytes@,
    ) is Some)
}

/// Whether the columns of a row can all be read.
pub open spec fn is_row_readable(row: Result<RawRow, String>) -> bool {
    row matches Ok(row) && forall|j: int|
        0 <= j < row.columns@.len() ==> is_readable(#[trigger] row.columns@[j])
}

/// Whether an error says why a column could not be read.
pub open spec fn says_why(err: SqlError, column: Result<RawColumn, String>) -> bool {
    match err {
        SqlError::ColumnGet { reason } => column matches Err(given) && reason@ == given@,
        SqlError::FieldDecode { reason } => column matches Ok(RawColumn::Text(bytes))
            && text::utf8_text(bytes@) is None && reason@ == utf8_fault(bytes@),
        _ => false,
    }
}

/// Whether a result is what rows give that the database handed out one after the other: as many rows
/// in the same order, each with the values of its own columns in their order; or the reason of the
/// first row that could not be had or read, where there is one.
pub open spec fn gives(
    rows: Seq<Result<RawRow, String>>,
    result: Result<QueryResult, SqlError>,
) -> bool {
    match result {
        Ok(result) => {
            &&& result.rows@.len() == rows.len()
            &&& forall|i: int|
                0 <= i < rows.len() ==> (#[trigger] rows[i] matches Ok(row)
                    && result.rows@[i].columns@.len() == row.columns@.len())
            &&& forall|i: int, j: int|
                0 <= i < rows.len() && 0 <= j < result.rows@[i].columns@.len() ==> is_value_of(
                    #[trigger] result.rows@[i].columns@[j],
                    rows[i]->Ok_0.columns@[j],
                )
        },
        Err(err) => exists|i: int|
            #![trigger rows[i]]
            0 <= i < rows.len() && (forall|before: int|
                0 <= before < i ==> is_row_readable(#[trigger] rows[before])) && match rows[i] {
                Err(given) => err matches SqlError::RowRead { reason } && reason@ == given@,
                Ok(row) => exists|j: int|
                    #![trigger row.columns@[j]]
                    0 <= j < row.columns@.len() && (forall|before: int|
                        0 <= before < j ==> is_readable(#[trigger] row.columns@[before])) && says_why(
                        err,
                        row.columns@[j],
                    ),
            },
    }
}

/// The rows of a query come back as the database gave them. A query that could not be run says why.
pub proof fn rows_come_back_as_they_were_given(
    prepared: Result<Vec<Result<RawRow, String>>, String>,
    result: Result<QueryResult, SqlError>,
)
    requires
        call_ensures(exec, (prepared,), result),
    ensures
        match prepared {
            Ok(rows) => gives(rows@, result),
            Err(given) => result matches Err(SqlError::QueryRun { reason }) && reason@ == given@,
        },
{
    if let Ok(rows) = prepared {
        lemma_gives(rows@, result);
    }
}

/// Rows that were read come back as the database gave them.
pub proof fn read_rows_are_those_given(
    rows: &Vec<Result<RawRow, String>>,
    result: Result<QueryResult, SqlError>,
)
    requires
        call_ensures(read_rows, (rows,), result),
    ensures
        gives(rows@, result),
{
    lemma_gives(rows@, result);
}

proof fn lemma_gives(rows: Seq<Result<RawRow, String>>, result: Result<QueryResult, SqlError>)
    requires
        match result {
            Ok(r) => all_values(rows) == Ok::<Seq<Seq<SqlValueView>>, SqlErrorView>(
                rows_of(r.rows@),
            ),
            Err(err) => all_values(rows) == Err::<Seq<Seq<SqlValueView>>, SqlErrorView>(err@),
        },
    ensures
        gives(rows, result),
{
    lemma_all_values(rows);
    match result {
        Ok(r) => {
            let values = rows_of(r.rows@);
            assert forall|i: int| 0 <= i < rows.len() implies (#[trigger] rows[i] matches Ok(row)
                && r.rows@[i].columns@.len() == row.columns@.len()) by {
                assert(values[i] == values_of(r.rows@[i].columns@));
                lemma_row_values(rows[i]->Ok_0.columns@);
            }
            assert forall|i: int, j: int|
                0 <= i < rows.len() && 0 <= j < r.rows@[i].columns@.len() implies is_value_of(
                #[trigger] r.rows@[i].columns@[j],
                rows[i]->Ok_0.columns@[j],
            ) by {
                assert(rows[i] is Ok);
                assert(values[i] == values_of(r.rows@[i].columns@));
                lemma_row_values(rows[i]->Ok_0.columns@);
                assert(values[i][j] == r.rows@[i].columns@[j]@);
            }
        },
        Err(err) => {
            let i = choose|i: int| first_failure(rows, i, err@);
            assert(rows[i] is Err || rows[i] is Ok);
            assert forall|before: int| 0 <= before < i implies is_row_readable(
                #[trigger] rows[before],
            ) by {
                lemma_row_values(rows[before]->Ok_0.columns@);
            }
            if let Ok(row) = rows[i] {
                lemma_row_values(row.columns@);
                let j = choose|j: int| first_column(row.columns@, j, err@);
                assert(says_why(err, row.columns@[j]));
            }
        },
    }
}

spec fn first_failure(rows: Seq<Result<RawRow, String>>, i: int, err: SqlErrorView) -> bool {
    &&& 0 <= i < rows.len()
    &&& forall|before: int|
        0 <= before < i ==> (#[trigger] rows[before] matches Ok(row) && row_values(row.columns@) is Ok)
    &&& match rows[i] {
        Err(reason) => err == SqlErrorView::RowRead(reason@),
        Ok(row) => row_values(row.columns@) == Err::<Seq<SqlValueView>, SqlErrorView>(err),
    }
}

spec fn first_column(columns: Seq<Result<RawColumn, String>>, j: int, err: SqlErrorView) -> bool {
    &&& 0 <= j < columns.len()
    &&& forall|before: int| 0 <= before < j ==> is_readable(#[trigger] columns[before])
    &&& column_value(columns[j]) == Err::<SqlValueView, SqlErrorView>(err)
}

proof fn lemma_row_values(columns: Seq<Result<RawColumn, String>>)
    ensures
        match row_values(columns) {
            Ok(values) => values.len() == columns.len() && forall|j: int|
                #![trigger columns[j]]
                #![trigger values[j]]
                0 <= j < columns.len() ==> column_value(columns[j]) == Ok::<
                    SqlValueView,
                    SqlErrorView,
                >(values[j]) && is_readable(columns[j]),
            Err(err) => exists|j: int| first_column(columns, j, err),
        },
    decreases columns.len(),
{
    if columns.len() > 0 {
        let rest = columns.drop_last();
        let last = columns.len() - 1;
        lemma_row_values(rest);
        match row_values(rest) {
            Err(err) => {
                let j = choose|j: int| first_column(rest, j, err);
                assert forall|before: int| 0 <= before < j implies is_readable(
                    #[trigger] columns[before],
                ) by {
                    assert(rest[before] == columns[before]);
                }
                assert(first_column(columns, j, err));
            },
            Ok(values) => {
                assert forall|j: int| 0 <= j < last implies column_value(#[trigger] columns[j])
                    == Ok::<SqlValueView, SqlErrorView>(values[j]) && is_readable(columns[j]) by {
                    assert(rest[j] == columns[j]);
                }
                if let Err(err) = column_value(columns[last]) {
                    assert(first_column(columns, last, err));
                }
            },
        }
    }
}

proof fn lemma_all_values(rows: Seq<Result<RawRow, String>>)
    ensures
        match all_values(rows) {
            Ok(values) => values.len() == rows.len() && forall|i: int|
                #![trigger rows[i]]
                #![trigger values[i]]
                0 <= i < rows.len() ==> (rows[i] matches Ok(row) && row_values(row.columns@) == Ok::<
                    Seq<SqlValueView>,
                    SqlErrorView,
                >(values[i])),
            Err(err) => exists|i: int| first_failure(rows, i, err),
        },
    decreases rows.len(),
{
    if rows.len() > 0 {
        let rest = rows.drop_last();
        let last = rows.len() - 1;
        lemma_all_values(rest);
        match all_values(rest) {
            Err(err) => {
                let i = choose|i: int| first_failure(rest, i, err);
                assert forall|before: int| 0 <= before < i implies (
                #[trigger] rows[before] matches Ok(row) && row_values(row.columns@) is Ok) by {
                    assert(rest[before] == rows[before]);
                }
                assert(first_failure(rows, i, err));
            },
            Ok(values) => {
                assert forall|i: int| 0 <= i < last implies (#[trigger] rows[i] matches Ok(row)
                    && row_values(row.columns@) == Ok::<Seq<SqlValueView>, SqlErrorView>(
                    values[i],
                )) by {
                    assert(rest[i] == rows[i]);
                }
                if let Err(err) = all_values(rows) {
                    assert(first_failure(rows, last, err));
                }
            },
        }
    }
}

/// A value is had only as what it is: a number from a number, a text from a text.
pub proof fn values_are_had_as_what_they_are(
    value: SqlValue,
    number: Result<i64, SqlMappingError>,
    text: Result<String, SqlMappingError>,
)
    requires
        call_ensures(SqlValue::to_i64, (&value,), number),
        call_ensures(SqlValue::to_text, (&value,), text),
    ensures
        number is Ok <==> value is Integer,
        text is Ok <==> value is Text,
        value matches SqlValue::Integer(v) ==> number == Ok::<_, SqlMappingError>(v),
        value matches SqlValue::Text(v) ==> text->Ok_0@ == v@,
{
}

/// Parameters are kept in the order in which they were given, beside the statement.
pub proof fn parameters_are_kept_in_order(query: Query, param: SqlValue, out: Query, i: int)
    requires
        call_ensures(Query::with_param, (query, param), out),
    ensures
        out.query@ == query.query@,
        out.params@.len() == query.params@.len() + 1,
        out.params@.last() == param,
        0 <= i < query.params@.len() ==> out.params@[i] == query.params@[i],
{
}

/// A failure of a database is told in words of its own; that of a query with its reason.
pub proof fn failures_of_databases_are_told(err: SqlError, message: String)
    requires
        call_ensures(SqlError::message, (&err,), message),
    ensures
        err matches SqlError::QueryRun { reason } ==> message@ == "failed to run query: "@ + reason@,
        err is FieldDecode ==> message@ == "failed to decode field"@,
        err is ColumnGet ==> message@ == "failed to get column"@,
        err is RowRead ==> message@ == "failed to read row"@,
        err is ConnectionOpen ==> message@ == "failed to open database connection"@,
{
}

} // verus!
