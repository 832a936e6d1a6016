//! The page that shows what the server runs.
use vstd::prelude::*;

use crate::cron;
use crate::cron::{format_time, Timestamp};
use crate::function::id::FunctionId;
use crate::text::owned;

verus! {

/// How a time is shown.
pub const SHOWN_TIME_FORMAT: &'static str = "%Y-%m-%d %H:%M:%S UTC";

/// What is shown in place of the functions where there are none.
pub const NO_FUNCTIONS: &'static str = "no functions deployed";

/// What is shown in place of the schedules where there are none.
pub const NO_CRON_TASKS: &'static str = "no cron tasks configured";

/// A time as it is shown.
pub fn format_datetime(time: &Timestamp) -> (shown: String)
    requires
        time.is_time(),
    ensures
        shown@ == cron::formatted_time((time.seconds, time.nanoseconds), SHOWN_TIME_FORMAT@),
{
    format_time((time.seconds, time.nanoseconds), SHOWN_TIME_FORMAT)
}

/// A schedule as the server knows it.
#[derive(Debug)]
pub struct CronTaskState {
    pub name: String,
    pub function_id: FunctionId,
    pub schedule: String,
    pub last_run: Option<Timestamp>,
    pub running: bool,
}

impl CronTaskState {
    pub open spec fn wf(&self) -> bool {
        self.last_run matches Some(time) ==> time.is_time()
    }
}

/// A row of the table of schedules.
#[derive(Debug)]
pub struct CronRow {
    pub name: String,
    pub function_id: String,
    pub schedule: String,
    pub last_run: String,
    pub state: &'static str,
}

/// Whether a row shows a schedule.
pub open spec fn shows(row: CronRow, task: CronTaskState) -> bool {
    &&& row.name@ == task.name@
    &&& row.function_id@ == task.function_id@
    &&& row.schedule@ == task.schedule@
    &&& row.last_run@ == (match task.last_run {
        Some(time) => cron::formatted_time((time.seconds, time.nanoseconds), SHOWN_TIME_FORMAT@),
        None => "never"@,
    })
    &&& row.state@ == (if task.running {
        "running"@
    } else {
        "idle"@
    })
}

/// The row of a schedule.
pub fn cron_row(task: &CronTaskState) -> (row: CronRow)
    requires
        task.wf(),
    ensures
        shows(row, *task),
{
    let last_run = match &task.last_run {
        Some(time) => format_datetime(time),
        None => owned("never"),
    };
    let state = if task.running {
        "running"
    } else {
        "idle"
    };
    CronRow {
        name: task.name.clone(),
        function_id: task.function_id.as_string(),
        schedule: task.schedule.clone(),
        last_run,
        state,
    }
}

/// The rows of a table, or what is shown where there are none.
#[derive(Debug)]
pub enum Rows<T> {
    Empty(&'static str),
    Listed(Vec<T>),
}

/// What the page shows.
#[derive(Debug)]
pub struct IntrospectionPage {
    pub function_count: usize,
    pub functions: Rows<String>,
    pub cron_tasks: Rows<CronRow>,
}

/// Whether a page shows the functions and the schedules of a server.
pub open spec fn page_shows(
    page: IntrospectionPage,
    functions: Seq<FunctionId>,
    cron_tasks: Seq<CronTaskState>,
) -> bool {
    &&& page.function_count == functions.len()
    &&& match page.functions {
        Rows::Empty(text) => functions.len() == 0 && text@ == NO_FUNCTIONS@,
        Rows::Listed(rows) => functions.len() > 0 && rows@.len() == functions.len() && forall|
            i: int,
        |
            0 <= i < functions.len() ==> (#[trigger] rows@[i])@ == functions[i]@,
    }
    &&& match page.cron_tasks {
        Rows::Empty(text) => cron_tasks.len() == 0 && text@ == NO_CRON_TASKS@,
        Rows::Listed(rows) => cron_tasks.len() > 0 && rows@.len() == cron_tasks.len() && forall|
            i: int,
        |
            0 <= i < cron_tasks.len() ==> shows(#[trigger] rows@[i], cron_tasks[i]),
    }
}

/// What the page shows of the functions and the schedules of a server.
pub fn introspection(functions: &Vec<FunctionId>, cron_tasks: &Vec<CronTaskState>) -> (page:
    IntrospectionPage)
    requires
        forall|i: int| 0 <= i < cron_tasks@.len() ==> (#[trigger] cron_tasks@[i]).wf(),
    ensures
        page_shows(page, functions@, cron_tasks@),
{
    let mut names: Vec<String> = Vec::new();
    let mut i: usize = 0;
    while i < functions.len()
        invariant
            i <= functions@.len(),
            names@.len() == i,
            forall|j: int| 0 <= j < i ==> (#[trigger] names@[j])@ == functions@[j]@,
        decreases functions@.len() - i,
    {
        names.push(functions[i].as_string());
        i = i + 1;
    }
    let mut rows: Vec<CronRow> = Vec::new();
    let mut k: usize = 0;
    while k < cron_tasks.len()
        invariant
            k <= cron_tasks@.len(),
            rows@.len() == k,
            forall|j: int| 0 <= j < cron_tasks@.len() ==> (#[trigger] cron_tasks@[j]).wf(),
            forall|j: int| 0 <= j < k ==> shows(#[trigger] rows@[j], cron_tasks@[j]),
        decreases cron_tasks@.len() - k,
    {
        assert(cron_tasks@[k as int].wf());
        rows.push(cron_row(&cron_tasks[k]));
        k = k + 1;
    }
    IntrospectionPage {
        function_count: functions.len(),
        functions: if functions.len() == 0 {
            Rows::Empty(NO_FUNCTIONS)
        } else {
            Rows::Listed(names)
        },
        cron_tasks: if cron_tasks.len() == 0 {
            Rows::Empty(NO_CRON_TASKS)
        } else {
            Rows::Listed(rows)
        },
    }
}

/// The page lists every function and every task, in their order, each row with what its own function or
/// task has; without any it says so.
pub proof fn pages_list_what_there_is(
    functions: &Vec<FunctionId>,
    cron_tasks: &Vec<CronTaskState>,
    page: IntrospectionPage,
    i: int,
)
    requires
        call_ensures(introspection, (functions, cron_tasks), page),
    ensures
        page.function_count == functions@.len(),
        page.functions is Empty <==> functions@.len() == 0,
        page.cron_tasks is Empty <==> cron_tasks@.len() == 0,
        page.functions matches Rows::Empty(told) ==> told@ == "no functions deployed"@,
        page.cron_tasks matches Rows::Empty(told) ==> told@ == "no cron tasks configured"@,
        page.functions matches Rows::Listed(rows) ==> rows@.len() == functions@.len() && (0 <= i
            < functions@.len() ==> rows@[i]@ == functions@[i]@),
        page.cron_tasks matches Rows::Listed(rows) ==> rows@.len() == cron_tasks@.len() && (0 <= i
            < cron_tasks@.len() ==> rows@[i].name@ == cron_tasks@[i].name@
            && rows@[i].function_id@ == cron_tasks@[i].function_id@ && rows@[i].schedule@
            == cron_tasks@[i].schedule@ && (cron_tasks@[i].running ==> rows@[i].state@
            == "running"@) && (!cron_tasks@[i].running ==> rows@[i].state@ == "idle"@) && (
        cron_tasks@[i].last_run is None ==> rows@[i].last_run@ == "never"@) && (
        cron_tasks@[i].last_run matches Some(time) ==> rows@[i].last_run@ == cron::formatted_time(
            (time.seconds, time.nanoseconds),
            "%Y-%m-%d %H:%M:%S UTC"@,
        ))),
{
    assert(NO_FUNCTIONS@ == "no functions deployed"@);
    assert(NO_CRON_TASKS@ == "no cron tasks configured"@);
    assert(SHOWN_TIME_FORMAT@ == "%Y-%m-%d %H:%M:%S UTC"@);
    if page.cron_tasks is Listed && 0 <= i < cron_tasks@.len() {
        assert(shows(page.cron_tasks->Listed_0@[i], cron_tasks@[i]));
    }
}

} // verus!
