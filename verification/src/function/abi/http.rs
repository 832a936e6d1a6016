//! Requests, responses and bodies that a function reads.
use vstd::prelude::*;

use crate::effects::fetch::{
    FetchResultError, FetchResultWithBodyResource, HttpStreamError, ResponseParts,
};
use crate::function::abi::futures;
use crate::function::abi::futures::{result_future_poll, FuturePollResult};
use crate::function::deployment::FetchRequestHeader;
use crate::poll::Poll;
use crate::resources::resource;
use crate::resources::resource::ResourceTable;
use crate::text;
use crate::text::{decode_text, owned};

verus! {

/// A response to a request of a function: its headers as bytes, its body held by the host.
pub struct FetchResponse<B> {
    pub status: u16,
    pub headers: Vec<(String, Vec<u8>)>,
    pub body: B,
}

/// Whether a header value can be handed to a function: printable ASCII and tabs.
pub open spec fn is_visible_ascii(value: Seq<u8>) -> bool {
    forall|i: int|
        0 <= i < value.len() ==> (32 <= (#[trigger] value[i]) && value[i] < 127) || value[i] == 9
}

/// Why a request of a function failed, as it is told.
#[derive(Clone, Copy, Debug, PartialEq, Eq, Structural)]
pub enum FetchReplyError {
    FailedToReadRequest,
    BadRequest,
    BodyHostResourceIdNotFound,
    ConnectionFailed,
    ConnectionTimeout,
    ResponseTimeout,
    FunctionNotFound,
    FunctionPanicked,
    FunctionCrashed,
    FunctionBusy,
    FunctionIncorrectResponse,
    RuntimeShutdown,
    FunctionInstantiationError,
    RuntimeInternalError,
}

/// What a function is told about a failed request: failures within the host look alike.
pub open spec fn reply_error_of(err: FetchResultError) -> FetchReplyError {
    match err {
        FetchResultError::FailedToReadRequest => FetchReplyError::FailedToReadRequest,
        FetchResultError::BadRequest => FetchReplyError::BadRequest,
        FetchResultError::BodyHostResourceIdNotFound => FetchReplyError::BodyHostResourceIdNotFound,
        FetchResultError::ConnectionFailed => FetchReplyError::ConnectionFailed,
        FetchResultError::ConnectionTimeout => FetchReplyError::ConnectionTimeout,
        FetchResultError::ResponseTimeout => FetchReplyError::ResponseTimeout,
        FetchResultError::FunctionNotFound => FetchReplyError::FunctionNotFound,
        FetchResultError::FunctionPanicked => FetchReplyError::FunctionPanicked,
        FetchResultError::FunctionCrashed => FetchReplyError::FunctionCrashed,
        FetchResultError::FunctionBusy => FetchReplyError::FunctionBusy,
        FetchResultError::FunctionIncorrectResponse => FetchReplyError::FunctionIncorrectResponse,
        FetchResultError::RuntimeShutdown => FetchReplyError::RuntimeShutdown,
        FetchResultError::FunctionInstantiationError => FetchReplyError::FunctionInstantiationError,
        FetchResultError::InternalRuntimeAssertionError => FetchReplyError::RuntimeInternalError,
        FetchResultError::InternalRuntimeTimeoutError => FetchReplyError::RuntimeInternalError,
    }
}

fn reply_error(err: FetchResultError) -> (told: FetchReplyError)
    ensures
        told == reply_error_of(err),
{
    match err {
        FetchResultError::FailedToReadRequest => FetchReplyError::FailedToReadRequest,
        FetchResultError::BadRequest => FetchReplyError::BadRequest,
        FetchResultError::BodyHostResourceIdNotFound => FetchReplyError::BodyHostResourceIdNotFound,
        FetchResultError::ConnectionFailed => FetchReplyError::ConnectionFailed,
        FetchResultError::ConnectionTimeout => FetchReplyError::ConnectionTimeout,
        FetchResultError::ResponseTimeout => FetchReplyError::ResponseTimeout,
        FetchResultError::FunctionNotFound => FetchReplyError::FunctionNotFound,
        FetchResultError::FunctionPanicked => FetchReplyError::FunctionPanicked,
        FetchResultError::FunctionCrashed => FetchReplyError::FunctionCrashed,
        FetchResultError::FunctionBusy => FetchReplyError::FunctionBusy,
        FetchResultError::FunctionIncorrectResponse => FetchReplyError::FunctionIncorrectResponse,
        FetchResultError::RuntimeShutdown => FetchReplyError::RuntimeShutdown,
        FetchResultError::FunctionInstantiationError => FetchReplyError::FunctionInstantiationError,
        FetchResultError::InternalRuntimeAssertionError => FetchReplyError::RuntimeInternalError,
        FetchResultError::InternalRuntimeTimeoutError => FetchReplyError::RuntimeInternalError,
    }
}

/// Whether every header of a list can be handed to a function.
pub open spec fn headers_visible(headers: Seq<(String, Vec<u8>)>) -> bool {
    forall|i: int| 0 <= i < headers.len() ==> is_visible_ascii((#[trigger] headers[i]).1@)
}

/// Whether `told` are the headers that a function is told for `headers`.
pub open spec fn headers_told(
    told: Seq<(String, String)>,
    headers: Seq<(String, Vec<u8>)>,
) -> bool {
    &&& told.len() == headers.len()
    &&& forall|i: int|
        0 <= i < headers.len() ==> (#[trigger] told[i]).0@ == headers[i].0@ && Some(told[i].1@)
            == text::utf8_text(headers[i].1@)
}

/// Printable ASCII is a text.
proof fn lemma_visible_is_text(value: Seq<u8>)
    requires
        is_visible_ascii(value),
    ensures
        text::utf8_text(value) is Some,
    decreases value.len(),
{
    let chars = Seq::new(value.len(), |i: int| value[i] as char);
    assert(vstd::utf8::is_ascii_chars(chars)) by {
        assert forall|i: int| 0 <= i < chars.len() implies 0 <= #[trigger] chars[i] as nat && chars[i]
            as nat <= 127 by {
            assert(value[i] < 127 || value[i] == 9);
        }
    }
    vstd::utf8::is_ascii_chars_encode_utf8(chars);
    assert(vstd::utf8::encode_utf8(chars) =~= value);
    vstd::utf8::encode_utf8_valid_utf8(chars);
}

/// The outcome of a request of a function.
pub type FetchOutcome<B> = Result<FetchResponse<B>, FetchResultError>;

/// Says what a function is told about a request of its own.
pub fn fx_fetch_result_future_poll<F, B>(
    operations: &mut ResourceTable<F>,
    fetch_results: &mut ResourceTable<FetchOutcome<B>>,
    resource_id: u64,
    polled: Poll<FetchOutcome<B>>,
) -> (told: FuturePollResult)
    requires
        old(operations).wf(),
        old(fetch_results).wf(),
        polled is Ready ==> old(fetch_results).has_room(),
        old(operations)@.dom().contains(resource::slot_key(resource_id)),
    ensures
        final(operations).wf(),
        final(fetch_results).wf(),
        told == futures::told_of(polled, told.resource_id),
        match polled {
            Poll::Pending => *final(operations) == *old(operations) && *final(fetch_results)
                == *old(fetch_results),
            Poll::Ready(outcome) => {
                &&& final(operations)@ == old(operations)@.remove(resource::slot_key(resource_id))
                &&& !old(fetch_results)@.dom().contains(told.resource_id)
                &&& resource::slot_key(told.resource_id) == told.resource_id
                &&& final(fetch_results)@ == old(fetch_results)@.insert(told.resource_id, outcome)
            },
        },
{
    result_future_poll(operations, fetch_results, resource_id, polled)
}

/// Takes the outcome of a request of a function. The body of a response becomes a resource; a
/// failure is told as it is told to functions.
pub fn fx_fetch_result_serialize<B>(
    fetch_results: &mut ResourceTable<FetchOutcome<B>>,
    http_bodies: &mut ResourceTable<B>,
    resource_id: u64,
) -> (told: Result<FetchResultWithBodyResource, FetchReplyError>)
    requires
        old(fetch_results).wf(),
        old(http_bodies).wf(),
        old(fetch_results)@[resource::slot_key(resource_id)] is Ok ==> old(http_bodies).has_room(),
        old(fetch_results)@.dom().contains(resource::slot_key(resource_id)),
        old(fetch_results)@[resource::slot_key(resource_id)] matches Ok(response)
            ==> headers_visible(response.headers@),
    ensures
        final(fetch_results).wf(),
        final(http_bodies).wf(),
        final(fetch_results)@ == old(fetch_results)@.remove(resource::slot_key(resource_id)),
        match old(fetch_results)@[resource::slot_key(resource_id)] {
            Err(err) => told == Err::<FetchResultWithBodyResource, _>(reply_error_of(err))
                && *final(http_bodies) == *old(http_bodies),
            Ok(response) => {
                &&& told matches Ok(result)
                &&& result.parts.status == response.status
                &&& headers_told(result.parts.headers@, response.headers@)
                &&& !old(http_bodies)@.dom().contains(result.body)
                &&& resource::slot_key(result.body) == result.body
                &&& final(http_bodies)@ == old(http_bodies)@.insert(result.body, response.body)
            },
        },
{
    match fetch_results.remove(resource_id).unwrap() {
        Err(err) => Err(reply_error(err)),
        Ok(response) => {
            let mut headers: Vec<(String, String)> = Vec::new();
            let mut i: usize = 0;
            while i < response.headers.len()
                invariant
                    i <= response.headers@.len(),
                    headers_visible(response.headers@),
                    headers_told(headers@, response.headers@.take(i as int)),
                decreases response.headers@.len() - i,
            {
                let (name, value) = &response.headers[i];
                proof {
                    lemma_visible_is_text(response.headers@[i as int].1@);
                }
                let ghost before = headers@;
                headers.push((name.clone(), owned(decode_text(value.as_slice()).unwrap())));
                proof {
                    assert forall|j: int| 0 <= j < i + 1 implies (#[trigger] headers@[j]).0@
                        == response.headers@.take(i + 1)[j].0@ && Some(headers@[j].1@)
                        == text::utf8_text(response.headers@.take(i + 1)[j].1@) by {
                        if j < i {
                            assert(before[j].0@ == response.headers@.take(i as int)[j].0@);
                        }
                    }
                }
                i = i + 1;
            }
            assert(response.headers@.take(response.headers@.len() as int) =~= response.headers@);
            let body: u64 = http_bodies.insert(response.body);
            Ok(
                FetchResultWithBodyResource::new(
                    ResponseParts { status: response.status, headers },
                    body,
                ),
            )
        },
    }
}

/// A frame of a body, or that the body has ended.
pub type HttpFrame = Option<Result<Vec<u8>, HttpStreamError>>;

/// Keeps the frame that a body gave when it was asked for one, and says what the function is
/// told.
pub fn fx_http_body_poll_frame(
    http_frames: &mut ResourceTable<HttpFrame>,
    polled: Poll<HttpFrame>,
) -> (told: FuturePollResult)
    requires
        old(http_frames).wf(),
        polled is Ready ==> old(http_frames).has_room(),
    ensures
        final(http_frames).wf(),
        match polled {
            Poll::Pending => told == (FuturePollResult { tag: 1, resource_id: 0 }) && *final(
                http_frames
            ) == *old(http_frames),
            Poll::Ready(frame) => told.tag == 0 && !old(http_frames)@.dom().contains(
                told.resource_id,
            ) && resource::slot_key(told.resource_id) == told.resource_id && final(http_frames)@ == old(http_frames)@.insert(told.resource_id, frame),
        },
{
    match polled {
        Poll::Pending => FuturePollResult { tag: 1, resource_id: 0 },
        Poll::Ready(frame) => {
            let resource_id: u64 = http_frames.insert(frame);
            FuturePollResult { tag: 0, resource_id }
        },
    }
}

/// A frame as a function reads it.
#[derive(Debug)]
pub enum FrameReply {
    Bytes(Vec<u8>),
    StreamEnd,
}

/// Takes a frame to be written out for the function; nothing where there is none of that number.
pub fn fx_http_frame_serialize(
    http_frames: &mut ResourceTable<HttpFrame>,
    resource_id: u64,
) -> (reply: Option<FrameReply>)
    requires
        old(http_frames).wf(),
        old(http_frames)@.dom().contains(resource::slot_key(resource_id)) ==> !(old(
            http_frames,
        )@[resource::slot_key(resource_id)] matches Some(Err(_))),
    ensures
        final(http_frames).wf(),
        final(http_frames)@ == old(http_frames)@.remove(resource::slot_key(resource_id)),
        if old(http_frames)@.dom().contains(resource::slot_key(resource_id)) {
            match old(http_frames)@[resource::slot_key(resource_id)] {
                Some(Ok(bytes)) => reply == Some(FrameReply::Bytes(bytes)),
                _ => reply == Some(FrameReply::StreamEnd),
            }
        } else {
            reply is None
        },
{
    match http_frames.remove(resource_id) {
        None => None,
        Some(Some(Ok(bytes))) => Some(FrameReply::Bytes(bytes)),
        Some(_) => Some(FrameReply::StreamEnd),
    }
}

/// What a function reads under the number that it was told for a frame is the frame that its body
/// gave, and once it is read the frame is gone.
pub proof fn frames_are_read_as_they_were_kept(
    held: Map<u64, HttpFrame>,
    resource_id: u64,
    frame: HttpFrame,
)
    requires
        resource::slot_key(resource_id) == resource_id,
        !held.dom().contains(resource_id),
    ensures
        ({
            let kept = held.insert(resource_id, frame);
            let key = resource::slot_key(resource_id);
            &&& kept.dom().contains(key) && kept[key] == frame
            &&& kept.remove(key) == held
        }),
{
    assert(held.insert(resource_id, frame).remove(resource_id) =~= held);
}

/// Takes a request that waits for the function, to be written out for it.
pub fn fx_fetch_request_header_serialize_handler(
    fetch_request_headers: &mut ResourceTable<FetchRequestHeader>,
    resource_id: u64,
) -> (request: FetchRequestHeader)
    requires
        old(fetch_request_headers).wf(),
        old(fetch_request_headers)@.dom().contains(resource::slot_key(resource_id)),
    ensures
        final(fetch_request_headers).wf(),
        final(fetch_request_headers)@ == old(fetch_request_headers)@.remove(
            resource::slot_key(resource_id),
        ),
        request == old(fetch_request_headers)@[resource::slot_key(resource_id)],
{
    fetch_request_headers.remove(resource_id).unwrap()
}

/// A response is handed to the function as it came: its status, its headers in their order, each under
/// its own name with its own value, and its body kept under the number that the function is told; the
/// bodies that were kept before stay.
pub proof fn responses_are_told_as_they_came<B>(
    resource_id: u64,
    told: Result<FetchResultWithBodyResource, FetchReplyError>,
    other: u64,
)
    ensures
        forall|results: &mut ResourceTable<FetchOutcome<B>>, bodies: &mut ResourceTable<B>| #[trigger]
            call_ensures(fx_fetch_result_serialize::<B>, (results, bodies, resource_id), told) && (
            results@[resource::slot_key(resource_id)] is Ok) ==> {
                let response = results@[resource::slot_key(resource_id)]->Ok_0;
                &&& told is Ok
                &&& told->Ok_0.parts.status == response.status
                &&& told->Ok_0.parts.headers@.len() == response.headers@.len()
                &&& forall|i: int|
                    0 <= i < response.headers@.len() ==> (
                    #[trigger] told->Ok_0.parts.headers@[i]).0@ == response.headers@[i].0@
                        && text::utf8_text(response.headers@[i].1@) == Some(
                        told->Ok_0.parts.headers@[i].1@,
                    )
                &&& final(bodies)@.dom().contains(told->Ok_0.body)
                &&& final(bodies)@[told->Ok_0.body] == response.body
                &&& bodies@.dom().contains(other) ==> final(bodies)@.dom().contains(other)
                    && final(bodies)@[other] == bodies@[other]
                &&& !final(results)@.dom().contains(resource::slot_key(resource_id))
                &&& other != resource::slot_key(resource_id) && results@.dom().contains(other)
                    ==> final(results)@.dom().contains(other) && final(results)@[other]
                    == results@[other]
            },
{
}

/// A request that failed is told as the failure that it was; failures within the host look alike.
pub proof fn failed_requests_are_told<B>(
    resource_id: u64,
    err: FetchResultError,
    told: Result<FetchResultWithBodyResource, FetchReplyError>,
)
    ensures
        forall|results: &mut ResourceTable<FetchOutcome<B>>, bodies: &mut ResourceTable<B>| #[trigger]
            call_ensures(fx_fetch_result_serialize::<B>, (results, bodies, resource_id), told)
                && results@[resource::slot_key(resource_id)] == Err::<FetchResponse<B>, _>(err) ==> {
                &&& *final(bodies) == *bodies
                &&& told is Err
                &&& err is FailedToReadRequest <==> told->Err_0 is FailedToReadRequest
                &&& err is BadRequest <==> told->Err_0 is BadRequest
                &&& err is BodyHostResourceIdNotFound
                    <==> told->Err_0 is BodyHostResourceIdNotFound
                &&& err is ConnectionFailed <==> told->Err_0 is ConnectionFailed
                &&& err is ConnectionTimeout <==> told->Err_0 is ConnectionTimeout
                &&& err is ResponseTimeout <==> told->Err_0 is ResponseTimeout
                &&& err is FunctionNotFound <==> told->Err_0 is FunctionNotFound
                &&& err is FunctionPanicked <==> told->Err_0 is FunctionPanicked
                &&& err is FunctionCrashed <==> told->Err_0 is FunctionCrashed
                &&& err is FunctionBusy <==> told->Err_0 is FunctionBusy
                &&& err is FunctionIncorrectResponse <==> told->Err_0 is FunctionIncorrectResponse
                &&& err is RuntimeShutdown <==> told->Err_0 is RuntimeShutdown
                &&& err is FunctionInstantiationError
                    <==> told->Err_0 is FunctionInstantiationError
            },
{
}

/// A frame that was polled is what the function reads under the number that it is told, once; the end
/// of the stream is told as that.
pub proof fn polled_frames_are_read(
    polled: Poll<HttpFrame>,
    told: FuturePollResult,
    resource_id: u64,
    reply: Option<FrameReply>,
    bytes: Vec<u8>,
)
    ensures
        forall|frames: &mut ResourceTable<HttpFrame>| #[trigger]
            call_ensures(fx_http_body_poll_frame, (frames, polled), told) ==> {
                &&& told.tag == 1 <==> polled is Pending
                &&& told.tag == 0 <==> polled is Ready
                &&& polled is Ready ==> final(frames)@.dom().contains(
                    resource::slot_key(told.resource_id),
                ) && final(frames)@[resource::slot_key(told.resource_id)] == polled->Ready_0
            },
        forall|frames: &mut ResourceTable<HttpFrame>| #[trigger]
            call_ensures(fx_http_frame_serialize, (frames, resource_id), reply) && frames@.dom().contains(
            resource::slot_key(resource_id),
            ) ==> {
                let frame = frames@[resource::slot_key(resource_id)];
                &&& frame == Some(Ok::<_, HttpStreamError>(bytes)) ==> reply == Some(
                    FrameReply::Bytes(bytes),
                )
                &&& frame is None ==> reply == Some(FrameReply::StreamEnd)
                &&& !final(frames)@.dom().contains(resource::slot_key(resource_id))
            },
        forall|frames: &mut ResourceTable<HttpFrame>| #[trigger]
            call_ensures(fx_http_frame_serialize, (frames, resource_id), reply) && !frames@.dom().contains(
            resource::slot_key(resource_id),
            ) ==> reply is None,
{
}

/// A request is handed to the function as it was kept, once.
pub proof fn kept_requests_are_handed_over(
    resource_id: u64,
    request: FetchRequestHeader,
    other: u64,
)
    ensures
        forall|headers: &mut ResourceTable<FetchRequestHeader>| #[trigger]
            call_ensures(
                fx_fetch_request_header_serialize_handler,
                (headers, resource_id),
                request,
            ) ==> {
                let at = resource::slot_key(resource_id);
                &&& request == headers@[at]
                &&& !final(headers)@.dom().contains(at)
                &&& other != at && headers@.dom().contains(other) ==> final(headers)@.dom().contains(
                other,
                ) && final(headers)@[other] == headers@[other]
            },
{
}

/// What came of a request is kept under the number that the function is told once it is there, and the
/// request is then no longer under way.
pub proof fn answered_requests_are_kept<F, B>(
    resource_id: u64,
    polled: Poll<FetchOutcome<B>>,
    told: FuturePollResult,
)
    ensures
        forall|operations: &mut ResourceTable<F>, results: &mut ResourceTable<FetchOutcome<B>>|
            #[trigger]
            call_ensures(
                fx_fetch_result_future_poll::<F, B>,
                (operations, results, resource_id, polled),
                told,
            ) ==> {
                &&& told.tag == 1 <==> polled is Pending
                &&& told.tag == 0 <==> polled is Ready
                &&& polled is Ready ==> final(results)@.dom().contains(
                    resource::slot_key(told.resource_id),
                ) && final(results)@[resource::slot_key(told.resource_id)] == polled->Ready_0
                    && !final(operations)@.dom().contains(resource::slot_key(resource_id))
                &&& polled is Pending ==> *final(operations) == *operations && *final(results)
                    == *results
            },
{
}

} // verus!
