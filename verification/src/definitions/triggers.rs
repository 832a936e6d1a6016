//! What sets off a deployed function.
use vstd::prelude::*;

use crate::cron::CronSchedule;

verus! {

/// Requests, to one host or to any.
#[derive(Debug)]
pub struct FunctionHttpListener {
    pub host: Option<String>,
}

/// A schedule.
#[derive(Debug)]
pub struct CronTrigger {
    pub id: String,
    pub schedule: CronSchedule,
}

} // verus!
