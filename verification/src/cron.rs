//! Tasks that run on a schedule, and the record of when they ran.
use vstd::prelude::*;

use crate::effects::sql;
use crate::effects::sql::{Query, QueryResult, SqlValue};
use crate::text::owned;

verus! {

/// The format in which the times of runs are recorded.
pub const DATE_TIME_FORMAT: &'static str = "%F %T%.f";

/// How long the runner rests between two rounds.
pub const ROUND_DELAY_SECONDS: u64 = 1;

/// The first second of the calendar.
pub const FIRST_SECOND: i64 = -8334601228800;

/// The last second of the calendar.
pub const LAST_SECOND: i64 = 8210266876799;

/// Whether seconds and nanoseconds are a time of the calendar.
pub open spec fn in_calendar(time: (i64, u32)) -> bool {
    FIRST_SECOND <= time.0 <= LAST_SECOND && (time.1 < 1_000_000_000 || (time.1 < 2_000_000_000
        && time.0 % 60 == 59))
}

/// Whether seconds and nanoseconds are a time of the years 1970 to 9999, leap seconds left out.
pub open spec fn is_common(time: (i64, u32)) -> bool {
    0 <= time.0 <= 253402300799 && time.1 < 1_000_000_000
}

/// A time: seconds since the epoch, and nanoseconds on top.
#[derive(Clone, Copy, Debug, PartialEq, Eq, Structural)]
pub struct Timestamp {
    pub seconds: i64,
    pub nanoseconds: u32,
}

impl Timestamp {
    /// Whether this is a time of the calendar. A second that is more than full is a leap second.
    pub open spec fn is_time(self) -> bool {
        in_calendar((self.seconds, self.nanoseconds))
    }

    /// Whether this is a time of the calendar before its last second.
    pub open spec fn is_before_the_end(self) -> bool {
        self.is_time() && self.seconds < LAST_SECOND
    }

    /// The times of the years 1970 to 9999, leap seconds left out.
    pub open spec fn in_range(self) -> bool {
        is_common((self.seconds, self.nanoseconds))
    }

    /// Whether this time is not after the other.
    pub open spec fn not_after(self, other: Timestamp) -> bool {
        self.seconds < other.seconds || (self.seconds == other.seconds && self.nanoseconds
            <= other.nanoseconds)
    }

    pub fn le(&self, other: &Timestamp) -> (le: bool)
        ensures
            le == self.not_after(*other),
    {
        self.seconds < other.seconds || (self.seconds == other.seconds && self.nanoseconds
            <= other.nanoseconds)
    }
}

/// Whether the `FromStr` of `cron::Schedule` accepts an expression.
pub uninterp spec fn is_schedule(expression: Seq<char>) -> bool;

/// The first time of a schedule after a given time, by `cron::Schedule::after`; times are seconds
/// since the epoch and nanoseconds.
pub uninterp spec fn next_time(expression: Seq<char>, after: (i64, u32)) -> Option<(i64, u32)>;

/// The time that `chrono::NaiveDateTime::parse_from_str` reads in a text, taken as UTC.
pub uninterp spec fn parsed_time(timestamp: Seq<char>, format: Seq<char>) -> Option<(i64, u32)>;

/// How `chrono::DateTime::format` writes a time in UTC.
pub uninterp spec fn formatted_time(time: (i64, u32), format: Seq<char>) -> Seq<char>;

/// The `FromStr` of `cron::Schedule`: whether an expression is a schedule. One of six stars is.
#[verifier::external_body]
fn schedule_ok(expression: &str) -> (ok: bool)
    ensures
        ok == is_schedule(expression@),
        expression@ == "* * * * * *"@ ==> ok,
{
    expression.parse::<cron::Schedule>().is_ok()
}

/// `cron::Schedule::after`: the first time of a schedule after a given time.
#[verifier::external_body]
fn schedule_next(expression: &str, after: (i64, u32)) -> (next: Option<(i64, u32)>)
    requires
        is_schedule(expression@),
        in_calendar(after),
        after.0 < LAST_SECOND,
    ensures
        next == next_time(expression@, after),
{
    let after = chrono::DateTime::from_timestamp(after.0, after.1).unwrap();
    let next = expression.parse::<cron::Schedule>().unwrap().after(&after).next();
    next.map(|next| (next.timestamp(), next.timestamp_subsec_nanos()))
}

/// `chrono::NaiveDateTime::parse_from_str`: the time that a text holds, taken as UTC. It is one of
/// the calendar.
#[verifier::external_body]
pub(crate) fn parse_time(timestamp: &str, format: &str) -> (time: Option<(i64, u32)>)
    ensures
        time == parsed_time(timestamp@, format@),
        time matches Some(t) ==> in_calendar(t),
{
    let time = chrono::NaiveDateTime::parse_from_str(timestamp, format).ok();
    time.map(|time| (time.and_utc().timestamp(), time.and_utc().timestamp_subsec_nanos()))
}

/// `chrono::DateTime::format`: a time in UTC as a text. What it writes by `%F %T%.f` of the years
/// 1970 to 9999, leap seconds left out, is read back as the same time. A format that chrono does
/// not know makes it panic, so those that are used here are listed.
#[verifier::external_body]
pub(crate) fn format_time(time: (i64, u32), format: &str) -> (timestamp: String)
    requires
        in_calendar(time),
        format@ == "%F %T%.f"@ || format@ == "%Y-%m-%d %H:%M:%S UTC"@,
    ensures
        timestamp@ == formatted_time(time, format@),
        format@ == "%F %T%.f"@ && is_common(time) ==> parsed_time(timestamp@, format@) == Some(
            time,
        ),
{
    chrono::DateTime::from_timestamp(time.0, time.1).unwrap().format(format).to_string()
}

/// A schedule.
#[derive(Debug)]
pub struct CronSchedule {
    pub expression: String,
}

impl CronSchedule {
    /// The expression is one.
    pub open spec fn wf(&self) -> bool {
        is_schedule(self.expression@)
    }

    /// The schedule of an expression, if it is one.
    pub fn parse(expression: String) -> (schedule: Option<Self>)
        ensures
            match schedule {
                Some(s) => is_schedule(expression@) && s.wf() && s.expression == expression,
                None => !is_schedule(expression@),
            },
    {
        if schedule_ok(expression.as_str()) {
            Some(CronSchedule { expression })
        } else {
            None
        }
    }

    /// The first time of the schedule after a given one.
    pub fn next_after(&self, after: Timestamp) -> (next: Option<Timestamp>)
        requires
            self.wf(),
            after.is_before_the_end(),
        ensures
            match next {
                Some(t) => next_time(self.expression@, (after.seconds, after.nanoseconds)) == Some(
                    (t.seconds, t.nanoseconds),
                ),
                None => next_time(self.expression@, (after.seconds, after.nanoseconds)) is None,
            },
    {
        match schedule_next(self.expression.as_str(), (after.seconds, after.nanoseconds)) {
            Some((seconds, nanoseconds)) => Some(Timestamp { seconds, nanoseconds }),
            None => None,
        }
    }
}

/// A task that runs on a schedule.
#[derive(Debug)]
pub struct CronTaskDefinition {
    pub id: String,
    pub schedule: CronSchedule,
    pub function_id: String,
    pub method_name: String,
}

impl CronTaskDefinition {
    pub open spec fn wf(&self) -> bool {
        self.schedule.wf()
    }

    /// A task that runs every second and calls `on_cron` of the function `cron`.
    pub fn new(id: String) -> (task: Self)
        ensures
            task.wf(),
            task.id == id,
            task.schedule.expression@ == "* * * * * *"@,
            task.function_id@ == "cron"@,
            task.method_name@ == "on_cron"@,
    {
        let expression = owned("* * * * * *");
        let _ = schedule_ok(expression.as_str());
        CronTaskDefinition {
            id,
            schedule: CronSchedule { expression },
            function_id: owned("cron"),
            method_name: owned("on_cron"),
        }
    }

    pub fn with_schedule(self, schedule: String) -> (task: Self)
        requires
            is_schedule(schedule@),
        ensures
            task.wf(),
            task == (CronTaskDefinition {
                schedule: (CronSchedule { expression: schedule }),
                ..self
            }),
    {
        CronTaskDefinition { schedule: CronSchedule { expression: schedule }, ..self }
    }

    /// The task with another schedule, or nothing where the expression is none.
    pub fn try_with_schedule(self, schedule: String) -> (task: Option<Self>)
        ensures
            match task {
                Some(t) => is_schedule(schedule@) && t.wf() && t == (CronTaskDefinition {
                    schedule: (CronSchedule { expression: schedule }),
                    ..self
                }),
                None => !is_schedule(schedule@),
            },
    {
        if schedule_ok(schedule.as_str()) {
            Some(self.with_schedule(schedule))
        } else {
            None
        }
    }

    pub fn with_function_id(self, function_id: String) -> (task: Self)
        ensures
            task == (CronTaskDefinition { function_id, ..self }),
    {
        CronTaskDefinition { function_id, ..self }
    }

    pub fn with_method_name(self, method_name: String) -> (task: Self)
        ensures
            task == (CronTaskDefinition { method_name, ..self }),
    {
        CronTaskDefinition { method_name, ..self }
    }
}

/// Whether a task is to run: it never has, or its next time after the last run has come.
pub open spec fn is_due(prev: Option<Timestamp>, next: Option<Timestamp>, now: Timestamp) -> bool {
    prev is None || (next is Some && next->0.not_after(now))
}

/// Whether a task is to run, from the time of its last run and its next time after that.
pub fn due(prev: Option<Timestamp>, next: Option<Timestamp>, now: Timestamp) -> (run: bool)
    requires
        prev is Some ==> next is Some,
    ensures
        run == is_due(prev, next, now),
{
    match (prev, next) {
        (Some(_), Some(next)) => next.le(&now),
        _ => true,
    }
}

/// The tasks that a runner looks after.
pub struct CronRunner {
    pub tasks: Vec<CronTaskDefinition>,
}

impl CronRunner {
    pub open spec fn wf(&self) -> bool {
        forall|i: int| 0 <= i < self.tasks@.len() ==> (#[trigger] self.tasks@[i]).wf()
    }

    pub fn new() -> (runner: Self)
        ensures
            runner.wf(),
            runner.tasks@.len() == 0,
    {
        CronRunner { tasks: Vec::new() }
    }

    pub fn with_task(self, task: CronTaskDefinition) -> (runner: Self)
        requires
            self.wf(),
            task.wf(),
        ensures
            runner.wf(),
            runner.tasks@ == self.tasks@.push(task),
    {
        let mut tasks = self.tasks;
        tasks.push(task);
        let runner = CronRunner { tasks };
        assert forall|i: int| 0 <= i < runner.tasks@.len() implies (
        #[trigger] runner.tasks@[i]).wf() by {
            if i < self.tasks@.len() {
                assert(self.tasks@[i].wf());
            }
        }
        runner
    }

    /// Whether a task is to run now, `prev` being the time of its last run; nothing where its
    /// schedule has no time after that.
    pub fn should_run(&self, index: usize, prev: Option<Timestamp>, now: Timestamp) -> (run: Option<
        bool,
    >)
        requires
            self.wf(),
            index < self.tasks@.len(),
            prev matches Some(t) ==> t.is_before_the_end(),
        ensures
            match prev {
                None => run == Some(true),
                Some(t) => match next_time(
                    self.tasks@[index as int].schedule.expression@,
                    (t.seconds, t.nanoseconds),
                ) {
                    None => run is None,
                    Some((seconds, nanoseconds)) => run == Some(
                        (Timestamp { seconds, nanoseconds }).not_after(now),
                    ),
                },
            },
    {
        match prev {
            None => Some(due(prev, None, now)),
            Some(t) => {
                assert(self.tasks@[index as int].wf());
                let next = self.tasks[index].schedule.next_after(t);
                match next {
                    None => None,
                    Some(_) => Some(due(prev, next, now)),
                }
            },
        }
    }

    /// What is recorded once a task ran: the time at which it was started where it succeeded; a
    /// task that failed is tried again.
    pub fn after_run(&self, succeeded: bool, started: Timestamp) -> (record: Option<Timestamp>)
        ensures
            record == (if succeeded {
                Some(started)
            } else {
                None
            }),
    {
        if succeeded {
            Some(started)
        } else {
            None
        }
    }
}

/// The statement that creates the record of runs.
pub fn create_table_query() -> (query: Query)
    ensures
        query.query@
            == "create table if not exists cron_tasks (task_id text primary key, last_run_at datetime)"@,
        query.params@.len() == 0,
{
    Query::new(
        owned(
            "create table if not exists cron_tasks (task_id text primary key, last_run_at datetime)",
        ),
    )
}

/// The query for the last run of a task.
pub fn prev_run_query(task_id: &str) -> (query: Query)
    ensures
        query.query@ == "select last_run_at from cron_tasks where task_id = ?"@,
        query.params@.len() == 1,
        query.params@[0]@ == sql::SqlValueView::Text(task_id@),
{
    Query::new(owned("select last_run_at from cron_tasks where task_id = ?")).with_param(
        SqlValue::Text(owned(task_id)),
    )
}

/// The statement that records a run of a task. The time that it records is read back as the same,
/// in the years 1970 to 9999.
pub fn update_run_query(task_id: &str, run_at: Timestamp) -> (query: Query)
    requires
        run_at.is_time(),
    ensures
        query.query@ == "insert or replace into cron_tasks (task_id, last_run_at) values (?, ?)"@,
        query.params@.len() == 2,
        query.params@[0]@ == sql::SqlValueView::Text(task_id@),
        query.params@[1]@ == sql::SqlValueView::Text(
            formatted_time((run_at.seconds, run_at.nanoseconds), DATE_TIME_FORMAT@),
        ),
        run_at.in_range() ==> parsed_time(
            formatted_time((run_at.seconds, run_at.nanoseconds), DATE_TIME_FORMAT@),
            DATE_TIME_FORMAT@,
        ) == Some((run_at.seconds, run_at.nanoseconds)),
{
    let recorded = format_time((run_at.seconds, run_at.nanoseconds), DATE_TIME_FORMAT);
    Query::new(
        owned("insert or replace into cron_tasks (task_id, last_run_at) values (?, ?)"),
    ).with_param(SqlValue::Text(owned(task_id))).with_param(SqlValue::Text(recorded))
}

/// Why the record of a run cannot be read.
#[derive(Clone, Copy, Debug, PartialEq, Eq, Structural)]
pub enum RunRecordError {
    /// The row has no column.
    NoColumn,
    /// The column holds no text.
    NotText,
    /// The text is no time.
    NotTime,
}

/// The record of the last run in what the database returned, if there is one.
pub open spec fn recorded_run(result: QueryResult) -> Result<Option<(i64, u32)>, RunRecordError> {
    if result.rows@.len() == 0 {
        Ok(None)
    } else if result.rows@[0].columns@.len() == 0 {
        Err(RunRecordError::NoColumn)
    } else {
        match result.rows@[0].columns@[0] {
            SqlValue::Text(t) => match parsed_time(t@, DATE_TIME_FORMAT@) {
                Some(time) => Ok(Some(time)),
                None => Err(RunRecordError::NotTime),
            },
            _ => Err(RunRecordError::NotText),
        }
    }
}

/// The time of the last run in what the database returned, or why it cannot be read.
pub fn read_prev_run_time(result: &QueryResult) -> (prev: Result<Option<Timestamp>, RunRecordError>)
    ensures
        match prev {
            Ok(None) => recorded_run(*result) == Ok::<_, RunRecordError>(None::<(i64, u32)>),
            Ok(Some(t)) => recorded_run(*result) == Ok::<_, RunRecordError>(
                Some((t.seconds, t.nanoseconds)),
            ) && t.is_time(),
            Err(err) => recorded_run(*result) == Err::<Option<(i64, u32)>, _>(err),
        },
{
    if result.rows.len() == 0 {
        return Ok(None);
    }
    if result.rows[0].columns.len() == 0 {
        return Err(RunRecordError::NoColumn);
    }
    match &result.rows[0].columns[0] {
        SqlValue::Text(recorded) => match parse_time(recorded.as_str(), DATE_TIME_FORMAT) {
            Some((seconds, nanoseconds)) => Ok(Some(Timestamp { seconds, nanoseconds })),
            None => Err(RunRecordError::NotTime),
        },
        _ => Err(RunRecordError::NotText),
    }
}

/// What is read of a run right after it was recorded is the time at which it was recorded.
pub proof fn runs_are_read_back(result: QueryResult, recorded: String, run_at: Timestamp)
    requires
        result.rows@.len() > 0,
        result.rows@[0].columns@.len() > 0,
        result.rows@[0].columns@[0] == SqlValue::Text(recorded),
        parsed_time(recorded@, DATE_TIME_FORMAT@) == Some((run_at.seconds, run_at.nanoseconds)),
    ensures
        recorded_run(result) == Ok::<_, RunRecordError>(
            Some((run_at.seconds, run_at.nanoseconds)),
        ),
{
}

/// A task runs at once where it never ran; else exactly when the time that its schedule names next after
/// its last run has come, to the nanosecond.
pub proof fn tasks_run_when_their_time_has_come(
    runner: CronRunner,
    index: usize,
    prev: Option<Timestamp>,
    now: Timestamp,
    run: Option<bool>,
)
    requires
        index < runner.tasks@.len(),
        call_ensures(CronRunner::should_run, (&runner, index, prev, now), run),
    ensures
        prev is None ==> run == Some(true),
        prev is Some ==> {
            let next = next_time(
                runner.tasks@[index as int].schedule.expression@,
                (prev->0.seconds, prev->0.nanoseconds),
            );
            &&& run is Some <==> next is Some
            &&& run == Some(true) <==> (next matches Some((seconds, nanoseconds)) && (seconds
                < now.seconds || (seconds == now.seconds && nanoseconds <= now.nanoseconds)))
        },
{
}

/// A time is due exactly where it has come, or where there was no run before.
pub proof fn due_times_have_come(
    prev: Option<Timestamp>,
    next: Timestamp,
    now: Timestamp,
    run: bool,
)
    requires
        call_ensures(due, (prev, Some(next), now), run),
    ensures
        run <==> prev is None || next.seconds < now.seconds || (next.seconds == now.seconds
            && next.nanoseconds <= now.nanoseconds),
{
}

/// Of two times one is not after the other, both only where they are the same, and three are in order
/// where two and two are.
pub proof fn times_are_ordered(
    a: Timestamp,
    b: Timestamp,
    c: Timestamp,
    ab: bool,
    ba: bool,
    bc: bool,
    ac: bool,
)
    requires
        call_ensures(Timestamp::le, (&a, &b), ab),
        call_ensures(Timestamp::le, (&b, &a), ba),
        call_ensures(Timestamp::le, (&b, &c), bc),
        call_ensures(Timestamp::le, (&a, &c), ac),
    ensures
        ab || ba,
        ab && ba ==> a == b,
        ab && bc ==> ac,
        a.seconds < b.seconds ==> ab && !ba,
        a.seconds == b.seconds && a.nanoseconds < b.nanoseconds ==> ab && !ba,
{
}

/// Only a run that succeeded is recorded, with the time at which it started.
pub proof fn runs_are_recorded_where_they_succeeded(
    runner: CronRunner,
    succeeded: bool,
    started: Timestamp,
    record: Option<Timestamp>,
)
    requires
        call_ensures(CronRunner::after_run, (&runner, succeeded, started), record),
    ensures
        record is Some <==> succeeded,
        record is Some ==> record->0 == started,
{
}

/// What is read of a task is the time in the first column of the first row; without a row it never ran,
/// and a row without a time that can be read is refused for what is wrong with it.
pub proof fn the_first_row_tells_the_last_run(
    result: &QueryResult,
    prev: Result<Option<Timestamp>, RunRecordError>,
)
    requires
        call_ensures(read_prev_run_time, (result,), prev),
    ensures
        prev matches Ok(None) <==> result.rows@.len() == 0,
        prev matches Err(RunRecordError::NoColumn) <==> result.rows@.len() > 0
            && result.rows@[0].columns@.len() == 0,
        prev matches Err(RunRecordError::NotText) <==> result.rows@.len() > 0
            && result.rows@[0].columns@.len() > 0 && result.rows@[0].columns@[0] !is Text,
        prev matches Ok(Some(t)) ==> result.rows@.len() > 0 && result.rows@[0].columns@.len() > 0
            && (result.rows@[0].columns@[0] matches SqlValue::Text(text) && parsed_time(
            text@,
            "%F %T%.f"@,
        ) == Some((t.seconds, t.nanoseconds))),
        prev matches Err(RunRecordError::NotTime) ==> (result.rows@[0].columns@[0] matches
            SqlValue::Text(text) && parsed_time(text@, "%F %T%.f"@) is None),
{
    assert(DATE_TIME_FORMAT@ == "%F %T%.f"@);
}

/// A run that was recorded under a task is the one that is read of it: the query that records it and the
/// one that reads it name the same task, and the text that is recorded reads as the time of the run.
pub proof fn recorded_runs_are_found(
    task_id: &str,
    run_at: Timestamp,
    written: Query,
    asked: Query,
    result: &QueryResult,
    recorded: String,
    prev: Result<Option<Timestamp>, RunRecordError>,
)
    requires
        call_ensures(update_run_query, (task_id, run_at), written),
        call_ensures(prev_run_query, (task_id,), asked),
        run_at.in_range(),
        written.params@[1]@ == sql::SqlValueView::Text(recorded@),
        result.rows@.len() > 0,
        result.rows@[0].columns@.len() > 0,
        result.rows@[0].columns@[0] == SqlValue::Text(recorded),
        call_ensures(read_prev_run_time, (result,), prev),
    ensures
        written.params@.len() == 2,
        asked.params@.len() == 1,
        written.params@[0]@ == asked.params@[0]@,
        asked.params@[0]@ == sql::SqlValueView::Text(task_id@),
        prev == Ok::<_, RunRecordError>(Some(run_at)),
{
}

/// Tasks are kept in the order in which they were given, and a task has what it was given.
pub proof fn tasks_are_kept_as_given(
    runner: CronRunner,
    task: CronTaskDefinition,
    after: CronRunner,
    name: String,
    other: CronTaskDefinition,
    renamed: CronTaskDefinition,
    i: int,
)
    requires
        call_ensures(CronRunner::with_task, (runner, task), after),
        call_ensures(CronTaskDefinition::with_function_id, (task, name), other),
        call_ensures(CronTaskDefinition::with_method_name, (task, name), renamed),
    ensures
        after.tasks@.len() == runner.tasks@.len() + 1,
        after.tasks@.last() == task,
        0 <= i < runner.tasks@.len() ==> after.tasks@[i] == runner.tasks@[i],
        other.function_id@ == name@ && other.method_name@ == task.method_name@ && other.id@
            == task.id@ && other.schedule.expression@ == task.schedule.expression@,
        renamed.method_name@ == name@ && renamed.function_id@ == task.function_id@ && renamed.id@
            == task.id@ && renamed.schedule.expression@ == task.schedule.expression@,
{
}

/// A schedule is what was written, and is taken exactly where it is one; the time that comes next is the
/// one that the schedule names after the given time.
pub proof fn schedules_are_what_was_written(
    expression: String,
    schedule: Option<CronSchedule>,
    task: CronTaskDefinition,
    scheduled: Option<CronTaskDefinition>,
    after: Timestamp,
    next: Option<Timestamp>,
)
    requires
        call_ensures(CronSchedule::parse, (expression,), schedule),
        call_ensures(CronTaskDefinition::try_with_schedule, (task, expression), scheduled),
        schedule is Some ==> call_ensures(CronSchedule::next_after, (&schedule->0, after), next),
    ensures
        schedule is Some <==> is_schedule(expression@),
        scheduled is Some <==> is_schedule(expression@),
        schedule is Some ==> schedule->0.expression@ == expression@,
        scheduled is Some ==> scheduled->0.schedule.expression@ == expression@ && scheduled->0.id@
            == task.id@ && scheduled->0.function_id@ == task.function_id@
            && scheduled->0.method_name@ == task.method_name@,
        schedule is Some ==> (next is Some <==> next_time(
            expression@,
            (after.seconds, after.nanoseconds),
        ) is Some),
        schedule is Some && next is Some ==> next_time(
            expression@,
            (after.seconds, after.nanoseconds),
        ) == Some((next->0.seconds, next->0.nanoseconds)),
{
}

/// A task that nothing is said of runs every second, in the function and at the handler of schedules.
pub proof fn new_tasks_run_every_second(id: String, task: CronTaskDefinition)
    requires
        call_ensures(CronTaskDefinition::new, (id,), task),
    ensures
        task.id@ == id@,
        task.schedule.expression@ == "* * * * * *"@,
        task.function_id@ == "cron"@,
        task.method_name@ == "on_cron"@,
{
}

} // verus!
