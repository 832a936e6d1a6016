//! How much memory the process takes.
use vstd::prelude::*;

verus! {

/// `tikv_jemalloc_ctl::epoch::advance`: has the allocator bring its statistics up to date, and
/// gives the number of the epoch that has ended with that; nothing where it failed.
#[verifier::external_body]
fn advance_epoch() -> (ended: Option<u64>) {
    tikv_jemalloc_ctl::epoch::advance().ok()
}

/// `tikv_jemalloc_ctl::stats::resident::read`: the bytes in resident pages as of the last epoch.
/// `_ended` is what the advance gave that went before; the call itself does not take it.
#[verifier::external_body]
fn resident_bytes(_ended: Option<u64>) -> (bytes: Option<u64>) {
    tikv_jemalloc_ctl::stats::resident::read().ok().map(|bytes| bytes as u64)
}

/// Whether `bytes` is something that reading the bytes in resident pages may give, after the
/// statistics were brought up to date.
pub closed spec fn is_reading(bytes: Option<u64>) -> bool {
    exists|ended: Option<u64>| #[trigger]
        call_ensures(advance_epoch, (), ended) && call_ensures(resident_bytes, (ended,), bytes)
}

/// The memory that the process takes now, where the allocator tells. Its statistics are brought up
/// to date first; where that fails, it tells what it knew before.
pub fn current_memory_usage() -> (bytes: Option<u64>)
    ensures
        is_reading(bytes),
{
    let ended = advance_epoch();
    resident_bytes(ended)
}

/// How much the usage `current` lies above that at the start; nothing where either is unknown, and
/// nothing where it lies below.
pub open spec fn total_at(started_at: Option<u64>, current: Option<u64>) -> Option<u64> {
    match (current, started_at) {
        (Some(now), Some(start)) => if now < start {
            None
        } else {
            Some((now - start) as u64)
        },
        _ => None,
    }
}

/// How much memory has come on top since a point in time.
#[derive(Clone, Copy, Debug, PartialEq, Eq, Structural)]
pub struct MemoryTracker {
    pub started_at: Option<u64>,
}

impl MemoryTracker {
    /// How much memory has come on top where the usage is `current` by now.
    pub fn total_since(&self, current: Option<u64>) -> (total: Option<u64>)
        ensures
            total == total_at(self.started_at, current),
    {
        match (current, self.started_at) {
            (Some(now), Some(start)) => if now < start {
                None
            } else {
                Some(now - start)
            },
            _ => None,
        }
    }

    /// How much memory has come on top by now, going by what the allocator tells.
    pub fn report_total(&self) -> (total: Option<u64>)
        ensures
            exists|current: Option<u64>| #[trigger]
                is_reading(current) && total == total_at(self.started_at, current),
    {
        let current = current_memory_usage();
        self.total_since(current)
    }
}

/// Starts tracking, from what the allocator tells now.
pub fn init_memory_tracker() -> (tracker: MemoryTracker)
    ensures
        is_reading(tracker.started_at),
{
    MemoryTracker { started_at: current_memory_usage() }
}

/// What has come on top is what has to be added to the usage at the start to have the usage now; it is
/// unknown exactly where one of them is, or where the usage went down.
pub proof fn growth_is_added_to_the_start(
    tracker: MemoryTracker,
    current: Option<u64>,
    total: Option<u64>,
)
    requires
        call_ensures(MemoryTracker::total_since, (&tracker, current), total),
    ensures
        total is Some <==> current is Some && tracker.started_at is Some && tracker.started_at->0
            <= current->0,
        total is Some ==> tracker.started_at->0 + total->0 == current->0,
{
}

} // verus!
