//! Calls of a function to its counters.
use vstd::prelude::*;

use crate::effects::metrics;
use crate::effects::metrics::{FunctionMetricsState, MetricId, MetricKey, MetricKeyView};
use crate::function::memory;
use crate::function::memory::{FunctionMemoryError, FunctionMemoryView};
use crate::order;
use crate::order::sort_pairs;

verus! {

/// Why a counter was not registered.
#[derive(Clone, Copy, Debug, PartialEq, Eq, Structural)]
pub enum MetricsCounterRegisterError {
    FailedToReadRequest,
    BadRequest,
}

/// A request to register a counter; a part that could not be decoded is missing.
pub struct CounterRegisterRequest {
    pub name: Option<String>,
    pub labels: Option<Vec<(Option<String>, Option<String>)>>,
}

/// The bytes in which a function has written its request.
pub fn counter_register_bytes<'a>(
    view: Result<&'a [u8], FunctionMemoryError>,
    req_ptr: u64,
    req_len: u64,
) -> (bytes: Result<&'a [u8], MetricsCounterRegisterError>)
    ensures
        match bytes {
            Ok(b) => view is Ok && memory::within(view->Ok_0@, req_ptr, req_len) && b@
                == memory::bytes_at(view->Ok_0@, req_ptr, req_len),
            Err(err) => (view is Err || !memory::within(view->Ok_0@, req_ptr, req_len)) && err
                == MetricsCounterRegisterError::FailedToReadRequest,
        },
{
    match view {
        Err(_) => Err(MetricsCounterRegisterError::FailedToReadRequest),
        Ok(view) => match (FunctionMemoryView { view }).slice(req_ptr, req_len) {
            Ok(bytes) => Ok(bytes),
            Err(_) => Err(MetricsCounterRegisterError::FailedToReadRequest),
        },
    }
}

/// Whether a label could be decoded.
pub open spec fn label_decoded(label: (Option<String>, Option<String>)) -> bool {
    label.0 is Some && label.1 is Some
}

/// Whether a request could be decoded in all its parts.
pub open spec fn request_decoded(request: CounterRegisterRequest) -> bool {
    &&& request.name is Some
    &&& request.labels is Some
    &&& forall|i: int|
        0 <= i < request.labels->0@.len() ==> label_decoded(#[trigger] request.labels->0@[i])
}

/// The labels of a decoded request, in the order in which they were given.
pub open spec fn given_labels(request: CounterRegisterRequest) -> Seq<(Seq<char>, Seq<char>)> {
    Seq::new(
        request.labels->0@.len(),
        |i: int| (request.labels->0@[i].0->0@, request.labels->0@[i].1->0@),
    )
}

/// The counter that a decoded request is about: its labels are sorted.
pub open spec fn requested_key(request: CounterRegisterRequest) -> MetricKeyView {
    MetricKeyView { name: request.name->0@, labels: order::sorted_pairs(given_labels(request)) }
}

/// Registers the counter of a request: `request` is nothing where it could not be decoded at all.
pub fn fx_metrics_counter_register_handler(
    state: &mut FunctionMetricsState,
    request: Option<CounterRegisterRequest>,
) -> (registered: Result<MetricId, MetricsCounterRegisterError>)
    requires
        old(state).wf(),
    ensures
        final(state).wf(),
        final(state).delta() == old(state).delta(),
        match registered {
            Err(err) => err == MetricsCounterRegisterError::BadRequest && (request is None
                || !request_decoded(request->0)) && final(state).series() == old(state).series(),
            Ok(metric) => request is Some && request_decoded(request->0) && final(state).series()
                == metrics::after_register(old(state).series(), requested_key(request->0))
                && metric.id < final(state).series().len() && final(
                state
            ).series()[metric.id as int] == requested_key(request->0),
        },
{
    let wanted = match request {
        None => return Err(MetricsCounterRegisterError::BadRequest),
        Some(wanted) => wanted,
    };
    let name = match &wanted.name {
        None => return Err(MetricsCounterRegisterError::BadRequest),
        Some(name) => name.clone(),
    };
    let given = match &wanted.labels {
        None => return Err(MetricsCounterRegisterError::BadRequest),
        Some(given) => given,
    };
    let mut labels: Vec<(String, String)> = Vec::new();
    let mut i: usize = 0;
    while i < given.len()
        invariant
            request == Some(wanted),
            wanted.name is Some,
            wanted.labels is Some,
            *given == wanted.labels->0,
            i <= given@.len(),
            labels@.len() == i,
            forall|j: int| 0 <= j < i ==> label_decoded(#[trigger] given@[j]),
            forall|j: int|
                0 <= j < i ==> metrics::pair_texts(labels@)[j] == #[trigger] given_labels(
                    wanted,
                )[j],
            state.wf(),
            *state == *old(state),
        decreases given@.len() - i,
    {
        let ghost before = labels@;
        match (&given[i].0, &given[i].1) {
            (Some(key), Some(value)) => {
                labels.push((key.clone(), value.clone()));
                proof {
                    assert forall|j: int| 0 <= j < i + 1 implies metrics::pair_texts(labels@)[j]
                        == #[trigger] given_labels(wanted)[j] by {
                        if j < i {
                            assert(metrics::pair_texts(before)[j] == given_labels(wanted)[j]);
                        }
                    }
                }
            },
            _ => {
                assert(!label_decoded(given@[i as int]));
                return Err(MetricsCounterRegisterError::BadRequest);
            },
        }
        i = i + 1;
    }
    assert(metrics::pair_texts(labels@) =~= given_labels(wanted));
    let key = MetricKey { name, labels: sort_pairs(labels) };
    assert(key@ == requested_key(wanted));
    Ok(state.counter_register(key))
}

/// Adds to a counter.
pub fn fx_metrics_counter_increment_handler(
    state: &mut FunctionMetricsState,
    counter_id: u64,
    delta: u64,
)
    requires
        old(state).wf(),
        metrics::value_or_zero(old(state).delta(), counter_id) + delta <= u64::MAX,
    ensures
        final(state).wf(),
        final(state).series() == old(state).series(),
        final(state).delta() == old(state).delta().insert(
            counter_id,
            (metrics::value_or_zero(old(state).delta(), counter_id) + delta) as u64,
        ),
{
    state.counter_increment(MetricId::from_abi(counter_id), delta);
}

/// Two requests that name the same labels in different orders are about the same counter.
pub proof fn label_order_does_not_matter(
    a: CounterRegisterRequest,
    b: CounterRegisterRequest,
)
    requires
        request_decoded(a),
        request_decoded(b),
        a.name->0@ == b.name->0@,
        given_labels(a).to_multiset() == given_labels(b).to_multiset(),
    ensures
        requested_key(a) == requested_key(b),
{
    order::sorting_forgets_the_order(given_labels(a), given_labels(b));
}

/// A request that can be read registers the counter that it describes: the counter has the name of the
/// request and each of its labels as often as the request has it, the labels in the order of a
/// dictionary.
pub proof fn registered_counters_are_those_described(
    request: CounterRegisterRequest,
    registered: Result<MetricId, MetricsCounterRegisterError>,
    i: int,
    j: int,
)
    ensures
        forall|state: &mut FunctionMetricsState| #[trigger]
            call_ensures(
                fx_metrics_counter_register_handler,
                (state, Some(request)),
                registered,
            ) && registered is Ok ==> {
                let key = final(state).series()[registered->Ok_0.id as int];
                &&& registered->Ok_0.id < final(state).series().len()
                &&& request.name is Some
                &&& request.labels is Some
                &&& key.name == request.name->0@
                &&& key.labels.to_multiset() == request.labels->0@.map_values(
                    |label: (Option<String>, Option<String>)| (label.0->0@, label.1->0@),
                ).to_multiset()
                &&& 0 <= i < j < key.labels.len() && key.labels[i].0 != key.labels[j].0
                    ==> order::comes_first(key.labels[i].0, key.labels[j].0)
                &&& 0 <= i < j < key.labels.len() && key.labels[i].0 == key.labels[j].0
                    ==> order::comes_first(key.labels[i].1, key.labels[j].1)
                &&& final(state).delta() == state.delta()
            },
        forall|state: &mut FunctionMetricsState| #[trigger]
            call_ensures(
                fx_metrics_counter_register_handler,
                (state, Some(request)),
                registered,
            ) ==> (registered is Ok <==> request.name is Some && request.labels is Some && forall|
                k: int,
            |
                0 <= k < request.labels->0@.len() ==> (#[trigger] request.labels->0@[k]).0 is Some
                    && request.labels->0@[k].1 is Some),
{
    let given = given_labels(request);
    assert(given =~= request.labels->0@.map_values(
        |label: (Option<String>, Option<String>)| (label.0->0@, label.1->0@),
    ));
    order::sorted_texts_are_in_order(given, i, j);
    if request_decoded(request) {
        assert forall|k: int| 0 <= k < request.labels->0@.len() implies (
        #[trigger] request.labels->0@[k]).0 is Some && request.labels->0@[k].1 is Some by {
            assert(label_decoded(request.labels->0@[k]));
        }
    }
}

/// The bytes of a request are those of its part of the memory, one by one.
pub proof fn register_requests_are_read_from_their_part<'a>(
    view: &'a [u8],
    req_ptr: u64,
    req_len: u64,
    bytes: Result<&'a [u8], MetricsCounterRegisterError>,
)
    requires
        call_ensures(
            counter_register_bytes,
            (Ok::<_, FunctionMemoryError>(view), req_ptr, req_len),
            bytes,
        ),
    ensures
        bytes is Ok <==> req_ptr + req_len <= view@.len(),
        bytes matches Ok(b) ==> b@.len() == req_len && forall|i: int|
            0 <= i < req_len ==> #[trigger] b@[i] == view@[req_ptr + i],
        bytes matches Err(err) ==> err is FailedToReadRequest,
{
}

/// Counting raises one counter by the given amount and leaves the others as they are.
pub proof fn counting_leaves_other_counters_alone(counter_id: u64, delta: u64, other: u64)
    ensures
        forall|state: &mut FunctionMetricsState| #[trigger]
            call_ensures(
                fx_metrics_counter_increment_handler,
                (state, counter_id, delta),
                (),
            ) && state.delta().dom().contains(counter_id) && state.delta()[counter_id] + delta
                <= u64::MAX ==> final(state).delta()[counter_id] == state.delta()[counter_id]
                + delta,
        forall|state: &mut FunctionMetricsState| #[trigger]
            call_ensures(
                fx_metrics_counter_increment_handler,
                (state, counter_id, delta),
                (),
            ) && !state.delta().dom().contains(counter_id) ==> final(state).delta()[counter_id]
                == delta,
        forall|state: &mut FunctionMetricsState| #[trigger]
            call_ensures(
                fx_metrics_counter_increment_handler,
                (state, counter_id, delta),
                (),
            ) && other != counter_id ==> (final(state).delta().dom().contains(other)
                <==> state.delta().dom().contains(other)) && final(state).delta()[other]
                == state.delta()[other],
{
}

} // verus!
