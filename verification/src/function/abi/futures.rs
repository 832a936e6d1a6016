//! Operations of the host that a function waits for, and bytes that it fetches.
use vstd::prelude::*;

use crate::function::memory;
use crate::function::memory::{copy_into, FunctionMemoryError};
use crate::poll::Poll;
use crate::resources::resource;
use crate::resources::resource::{FunctionResourceId, ResourceTable};

verus! {

/// What a function is told that asked about an operation: a tag, and the number of the result
/// where there is one.
#[derive(Clone, Copy, Debug, PartialEq, Eq, Structural)]
pub struct FuturePollResult {
    pub tag: u64,
    pub resource_id: u64,
}

/// Moves the result of an operation that is done from the operations to the results; `polled` is
/// what the operation gave when it was asked. `F` is an operation, `V` its result.
pub fn resource_poll<F, V>(
    futures: &mut ResourceTable<F>,
    results: &mut ResourceTable<V>,
    resource_id: u64,
    polled: Poll<V>,
) -> (result_id: Poll<u64>)
    requires
        old(futures).wf(),
        old(results).wf(),
        polled is Ready ==> old(results).has_room(),
        old(futures)@.dom().contains(resource::slot_key(resource_id)),
    ensures
        final(futures).wf(),
        final(results).wf(),
        match polled {
            Poll::Pending => result_id is Pending && *final(futures) == *old(futures) && *final(
                results
            ) == *old(results),
            Poll::Ready(value) => {
                &&& result_id matches Poll::Ready(id)
                &&& final(futures)@ == old(futures)@.remove(resource::slot_key(resource_id))
                &&& !old(results)@.dom().contains(id)
                &&& resource::slot_key(id) == id
                &&& final(results)@ == old(results)@.insert(id, value)
            },
        },
{
    match polled {
        Poll::Pending => Poll::Pending,
        Poll::Ready(value) => {
            let _ = futures.remove(resource_id);
            Poll::Ready(results.insert(value))
        },
    }
}

/// What a function is told about an operation with a result.
pub fn future_poll_result(result_id: Poll<u64>) -> (told: FuturePollResult)
    ensures
        told == (match result_id {
            Poll::Pending => (FuturePollResult { tag: 1, resource_id: 0 }),
            Poll::Ready(id) => (FuturePollResult { tag: 0, resource_id: id }),
        }),
{
    match result_id {
        Poll::Pending => FuturePollResult { tag: 1, resource_id: 0 },
        Poll::Ready(resource_id) => FuturePollResult { tag: 0, resource_id },
    }
}

/// What a function is told about an operation whose result is kept for it once it is done.
pub open spec fn told_of<V>(polled: Poll<V>, id: u64) -> FuturePollResult {
    match polled {
        Poll::Pending => (FuturePollResult { tag: 1, resource_id: 0 }),
        Poll::Ready(_) => (FuturePollResult { tag: 0, resource_id: id }),
    }
}

/// Moves the result of an operation that is done to the results, and says what the function is
/// told: the number of the result, or a tag of one while there is none.
pub fn result_future_poll<F, V>(
    futures: &mut ResourceTable<F>,
    results: &mut ResourceTable<V>,
    resource_id: u64,
    polled: Poll<V>,
) -> (told: FuturePollResult)
    requires
        old(futures).wf(),
        old(results).wf(),
        polled is Ready ==> old(results).has_room(),
        old(futures)@.dom().contains(resource::slot_key(resource_id)),
    ensures
        final(futures).wf(),
        final(results).wf(),
        told == told_of(polled, told.resource_id),
        match polled {
            Poll::Pending => *final(futures) == *old(futures) && *final(results) == *old(results),
            Poll::Ready(value) => {
                &&& final(futures)@ == old(futures)@.remove(resource::slot_key(resource_id))
                &&& !old(results)@.dom().contains(told.resource_id)
                &&& resource::slot_key(told.resource_id) == told.resource_id
                &&& final(results)@ == old(results)@.insert(told.resource_id, value)
            },
        },
{
    future_poll_result(resource_poll(futures, results, resource_id, polled))
}

/// Drops an operation without a result that is done, and says what the function is told: a tag of
/// one while it is not.
pub fn fx_unit_future_poll<F>(
    unit_futures: &mut ResourceTable<F>,
    resource_id: u64,
    polled: Poll<()>,
) -> (tag: u64)
    requires
        old(unit_futures).wf(),
        old(unit_futures)@.dom().contains(resource::slot_key(resource_id)),
    ensures
        final(unit_futures).wf(),
        match polled {
            Poll::Pending => tag == 1 && *final(unit_futures) == *old(unit_futures),
            Poll::Ready(()) => tag == 0 && final(unit_futures)@ == old(unit_futures)@.remove(
                resource::slot_key(resource_id),
            ),
        },
{
    match polled {
        Poll::Pending => 1,
        Poll::Ready(()) => {
            let _ = unit_futures.remove(resource_id);
            0
        },
    }
}

/// Where bytes that were made for a function wait for it.
#[derive(Clone, Copy, Debug, PartialEq, Eq, Structural)]
pub struct ResourceSerializeResult {
    pub bytes_resource_id: u64,
    pub bytes_length: u64,
}

/// Keeps bytes that were made for a function until it fetches them.
pub fn store_serialized(
    bytes: &mut ResourceTable<Vec<u8>>,
    serialized: Vec<u8>,
) -> (told: ResourceSerializeResult)
    requires
        old(bytes).wf(),
        old(bytes).has_room(),
    ensures
        final(bytes).wf(),
        !old(bytes)@.dom().contains(told.bytes_resource_id),
        resource::slot_key(told.bytes_resource_id) == told.bytes_resource_id,
        final(bytes)@ == old(bytes)@.insert(told.bytes_resource_id, serialized),
        told.bytes_length == serialized@.len(),
{
    let bytes_length: u64 = serialized.len() as u64;
    let bytes_resource_id: u64 = bytes.insert(serialized);
    ResourceSerializeResult { bytes_resource_id, bytes_length }
}

/// How many bytes wait under a number.
pub fn fx_bytes_len_handler(bytes: &ResourceTable<Vec<u8>>, resource_id: u64) -> (len: u64)
    requires
        bytes.wf(),
        bytes@.dom().contains(resource::slot_key(resource_id)),
    ensures
        len == bytes@[resource::slot_key(resource_id)]@.len(),
{
    bytes.get(resource_id).unwrap().len() as u64
}

/// What a function is told that fetched bytes.
#[derive(Clone, Copy, Debug, PartialEq, Eq, Structural)]
pub enum ResourceMoveFromHostResult {
    Done,
    FailedToAccessMemory,
    ArgumentOutOfMemoryBounds,
}

/// Moves bytes into the memory of the function; they are gone from the host in any case.
pub fn fx_bytes_move_handler(
    bytes: &mut ResourceTable<Vec<u8>>,
    resource_id: u64,
    view: Result<&mut [u8], FunctionMemoryError>,
    ptr: u64,
) -> (told: ResourceMoveFromHostResult)
    requires
        old(bytes).wf(),
        old(bytes)@.dom().contains(resource::slot_key(resource_id)),
    ensures
        final(bytes).wf(),
        final(bytes)@ == old(bytes)@.remove(resource::slot_key(resource_id)),
        match view {
            Err(_) => told == ResourceMoveFromHostResult::FailedToAccessMemory,
            Ok(view) => {
                let moved = old(bytes)@[resource::slot_key(resource_id)]@;
                if ptr + moved.len() <= view@.len() {
                    told == ResourceMoveFromHostResult::Done && final(view)@ == memory::written(
                        view@,
                        ptr,
                        moved,
                    )
                } else {
                    told == ResourceMoveFromHostResult::ArgumentOutOfMemoryBounds && final(view)@
                        == view@
                }
            },
        },
{
    let moved = bytes.remove(resource_id).unwrap();
    match view {
        Err(_) => ResourceMoveFromHostResult::FailedToAccessMemory,
        Ok(view) => match copy_into(view, ptr, moved.as_slice()) {
            Ok(()) => ResourceMoveFromHostResult::Done,
            Err(_) => ResourceMoveFromHostResult::ArgumentOutOfMemoryBounds,
        },
    }
}

/// Writes a result into the memory of the function.
pub fn write_result(view: &mut [u8], result_addr: u64, result: &[u8])
    requires
        result_addr + result@.len() <= old(view)@.len(),
    ensures
        final(view)@ == memory::written(old(view)@, result_addr, result@),
{
    let _ = copy_into(view, result_addr, result);
}

/// Notes a background task that the function has spawned.
pub fn fx_tasks_background_spawn_handler(
    tasks_background: &mut Vec<FunctionResourceId>,
    function_resource_id: u64,
)
    ensures
        final(tasks_background)@ == old(tasks_background)@.push(
            (FunctionResourceId { id: function_resource_id }),
        ),
{
    tasks_background.push(FunctionResourceId::new(function_resource_id));
}

/// What a function fetches under the number that it was told is what was kept for it, and of the
/// length that it was told.
pub proof fn fetched_bytes_are_those_kept(
    held: Map<u64, Vec<u8>>,
    told: ResourceSerializeResult,
    serialized: Vec<u8>,
)
    requires
        resource::slot_key(told.bytes_resource_id) == told.bytes_resource_id,
        told.bytes_length == serialized@.len(),
    ensures
        ({
            let after = held.insert(told.bytes_resource_id, serialized);
            let key = resource::slot_key(told.bytes_resource_id);
            &&& after.dom().contains(key)
            &&& after[key]@ == serialized@
            &&& after[key]@.len() == told.bytes_length
        }),
{
}

/// A result that is there is kept under the number that the function is told and its future is gone;
/// one that is still to come changes nothing. Other results and futures stay.
pub proof fn results_are_kept_under_their_numbers<F, V>(
    resource_id: u64,
    polled: Poll<V>,
    told: FuturePollResult,
    other: u64,
)
    ensures
        forall|futures: &mut ResourceTable<F>, results: &mut ResourceTable<V>| #[trigger]
            call_ensures(
                result_future_poll::<F, V>,
                (futures, results, resource_id, polled),
                told,
            ) ==> {
                &&& told.tag == 1 <==> polled is Pending
                &&& told.tag == 0 <==> polled is Ready
                &&& polled is Pending ==> told.resource_id == 0 && *final(futures) == *futures
                    && *final(results) == *results
                &&& polled is Ready ==> final(results)@.dom().contains(
                    resource::slot_key(told.resource_id),
                ) && final(results)@[resource::slot_key(told.resource_id)] == polled->Ready_0
                    && !final(futures)@.dom().contains(resource::slot_key(resource_id))
                &&& results@.dom().contains(other) ==> final(results)@.dom().contains(other)
                    && final(results)@[other] == results@[other]
                &&& other != resource::slot_key(resource_id) && futures@.dom().contains(other)
                    ==> final(futures)@.dom().contains(other) && final(futures)@[other]
                    == futures@[other]
            },
{
}

/// A future without a result is told as done exactly where it is, and is then gone; other futures stay.
pub proof fn finished_futures_are_gone<F>(resource_id: u64, polled: Poll<()>, tag: u64, other: u64)
    ensures
        forall|futures: &mut ResourceTable<F>| #[trigger]
            call_ensures(fx_unit_future_poll::<F>, (futures, resource_id, polled), tag) ==> {
                &&& tag == 0 <==> polled is Ready
                &&& tag == 1 <==> polled is Pending
                &&& polled is Ready ==> !final(futures)@.dom().contains(
                    resource::slot_key(resource_id),
                )
                &&& polled is Pending ==> *final(futures) == *futures
                &&& other != resource::slot_key(resource_id) && futures@.dom().contains(other)
                    ==> final(futures)@.dom().contains(other) && final(futures)@[other]
                    == futures@[other]
            },
{
}

/// Bytes that are kept for a function are moved to the place that it names, one by one in their order,
/// and are no longer kept; nothing else in its memory changes, and nothing at all where they do not fit.
pub proof fn kept_bytes_are_moved_into_the_memory(
    resource_id: u64,
    ptr: u64,
    told: ResourceMoveFromHostResult,
)
    ensures
        forall|bytes: &mut ResourceTable<Vec<u8>>, view: &mut [u8]| #[trigger]
            call_ensures(
                fx_bytes_move_handler,
                (bytes, resource_id, Ok::<&mut [u8], FunctionMemoryError>(view), ptr),
                told,
            ) ==> {
                let moved = bytes@[resource::slot_key(resource_id)]@;
                &&& told is Done <==> ptr + moved.len() <= view@.len()
                &&& told is ArgumentOutOfMemoryBounds <==> ptr + moved.len() > view@.len()
                &&& final(view)@.len() == view@.len()
                &&& told is Done ==> final(view)@.subrange(ptr as int, ptr + moved.len()) =~= moved
                &&& forall|i: int|
                    0 <= i < view@.len() && (told !is Done || i < ptr || ptr + moved.len() <= i)
                        ==> #[trigger] final(view)@[i] == view@[i]
                &&& !final(bytes)@.dom().contains(resource::slot_key(resource_id))
            },
{
}

/// Bytes are kept under the number that the function is told, with the length that it is told, which is
/// also the one that it can ask for.
pub proof fn kept_bytes_have_the_length_that_is_told(
    serialized: Vec<u8>,
    told: ResourceSerializeResult,
    table: &ResourceTable<Vec<u8>>,
    resource_id: u64,
    len: u64,
)
    requires
        call_ensures(fx_bytes_len_handler, (table, resource_id), len),
    ensures
        len == table@[resource::slot_key(resource_id)]@.len(),
        forall|bytes: &mut ResourceTable<Vec<u8>>| #[trigger]
            call_ensures(store_serialized, (bytes, serialized), told) ==> {
                &&& final(bytes)@.dom().contains(resource::slot_key(told.bytes_resource_id))
                &&& final(bytes)@[resource::slot_key(told.bytes_resource_id)] == serialized
                &&& told.bytes_length == serialized@.len()
                &&& forall|id: u64| #[trigger]
                    bytes@.dom().contains(id) ==> final(bytes)@.dom().contains(id)
                        && final(bytes)@[id] == bytes@[id]
            },
{
}

/// Tasks in the background are noted in the order in which they were started.
pub proof fn background_tasks_are_noted_in_order(function_resource_id: u64)
    ensures
        forall|tasks: &mut Vec<FunctionResourceId>| #[trigger]
            call_ensures(
                fx_tasks_background_spawn_handler,
                (tasks, function_resource_id),
                (),
            ) ==> {
                &&& final(tasks)@.len() == tasks@.len() + 1
                &&& final(tasks)@.last().id == function_resource_id
                &&& forall|i: int|
                    0 <= i < tasks@.len() ==> #[trigger] final(tasks)@[i] == tasks@[i]
            },
{
}

/// A result that is written stands byte by byte at its address, and every other byte stays.
pub proof fn results_are_written_in_place(result_addr: u64, result: &[u8])
    ensures
        forall|view: &mut [u8]| #[trigger]
            call_ensures(write_result, (view, result_addr, result), ()) && result_addr
                + result@.len() <= view@.len() ==> {
                &&& final(view)@.len() == view@.len()
                &&& final(view)@.subrange(result_addr as int, result_addr + result@.len())
                    =~= result@
                &&& forall|i: int|
                    0 <= i < view@.len() && (i < result_addr || result_addr + result@.len() <= i)
                        ==> #[trigger] final(view)@[i] == view@[i]
            },
{
}

} // verus!
