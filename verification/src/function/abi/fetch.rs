//! Requests that a function sends: to another function, to a service of the host or to the
//! network.
use vstd::prelude::*;

use crate::definitions::bindings::FunctionBindingConfig;
use crate::effects::fetch::FetchResultError;
use crate::function::id::FunctionId;
use crate::function::memory;
use crate::function::memory::FunctionMemoryView;
use crate::resources::resource;
use crate::resources::resource::ResourceTable;
use crate::table::{Table, TableKey};
use crate::text;
use crate::text::{eq_ignore_ascii_case, lowercase_text, same_text};
use crate::web;
use crate::web::{
    header_name_ok, header_value_ok, headers_append, headers_names, headers_new, host_of_uri, uri_ok,
    url_ok, HttpMethod,
};

verus! {

/// How long a request to the network may take.
pub const FETCH_TIMEOUT_SECONDS: u64 = 3;

/// A header of a request; a part that could not be decoded is missing.
pub struct HeaderField {
    pub name: Option<String>,
    pub value: Option<String>,
}

/// The body of a request.
pub enum RequestBody {
    Empty,
    /// The bytes themselves, or nothing where they could not be decoded.
    Bytes(Option<Vec<u8>>),
    /// A body that the host holds.
    HostResource(u64),
    /// A stream of the function.
    FunctionStream(u64),
}

/// A request as a function has written it; a part that could not be decoded is missing.
pub struct FetchRequestMessage {
    pub method: Option<HttpMethod>,
    pub uri: Option<String>,
    pub headers: Option<Vec<HeaderField>>,
    pub body: Option<RequestBody>,
}

/// A request without its body, ready to be sent.
pub struct OutgoingRequest {
    pub method: HttpMethod,
    pub uri: String,
    pub headers: http::HeaderMap<http::HeaderValue>,
    pub request_id: Option<String>,
}

/// The body of a request that is sent; `B` is a body that the host holds.
pub enum OutgoingBody<B> {
    Empty,
    Bytes(Vec<u8>),
    Host(B),
    FunctionStream(u64),
}

/// What becomes of a request.
pub enum FetchPlan<B> {
    /// It is answered with an error at once.
    Fail(FetchResultError),
    /// Another function handles it.
    Invoke { function_id: FunctionId, request: OutgoingRequest },
    /// The key-value service of the host handles it.
    Kv { request: OutgoingRequest, body: OutgoingBody<B> },
    /// It goes out to the network.
    External { request: OutgoingRequest, body: OutgoingBody<B> },
}

/// The bytes in which a function has written its request.
pub fn fetch_request_bytes<'a>(view: Option<&'a [u8]>, req_ptr: u64, req_len: u64) -> (bytes: Result<
    &'a [u8],
    FetchResultError,
>)
    ensures
        match bytes {
            Ok(b) => view is Some && memory::within(view->0@, req_ptr, req_len) && b@
                == memory::bytes_at(view->0@, req_ptr, req_len),
            Err(err) => (view is None || !memory::within(view->0@, req_ptr, req_len)) && err
                == FetchResultError::FailedToReadRequest,
        },
{
    match view {
        None => Err(FetchResultError::FailedToReadRequest),
        Some(view) => match (FunctionMemoryView { view }).slice(req_ptr, req_len) {
            Ok(bytes) => Ok(bytes),
            Err(_) => Err(FetchResultError::FailedToReadRequest),
        },
    }
}

/// Whether a header can be sent.
pub open spec fn header_sendable(header: HeaderField) -> bool {
    &&& header.name is Some
    &&& header.value is Some
    &&& web::is_header_name(vstd::utf8::encode_utf8(header.name->0@))
    &&& web::is_header_value(vstd::utf8::encode_utf8(header.value->0@))
}

/// Whether all of a list of headers can be sent.
pub open spec fn headers_sendable(headers: Seq<HeaderField>) -> bool {
    forall|i: int| 0 <= i < headers.len() ==> header_sendable(#[trigger] headers[i])
}

/// The headers that are sent for a list of them: a name that comes again gets a further value.
pub open spec fn collected(headers: Seq<HeaderField>) -> Map<Seq<u8>, Seq<Seq<u8>>>
    decreases headers.len(),
{
    if headers.len() == 0 {
        Map::empty()
    } else {
        web::with_appended(
            collected(headers.drop_last()),
            vstd::utf8::encode_utf8(headers.last().name->0@),
            vstd::utf8::encode_utf8(headers.last().value->0@),
        )
    }
}

/// The value of the last header named `x-request-id`, in any case.
pub open spec fn request_id_in(headers: Seq<HeaderField>) -> Option<Seq<char>>
    decreases headers.len(),
{
    if headers.len() == 0 {
        None
    } else if text::same_ignoring_ascii_case(headers.last().name->0@, "x-request-id"@) {
        Some(headers.last().value->0@)
    } else {
        request_id_in(headers.drop_last())
    }
}

/// Whether a map of headers takes a list of headers in any case.
pub open spec fn headers_fit(headers: Seq<HeaderField>) -> bool {
    collected(headers).dom().len() <= web::MAX_HEADER_NAMES
}

/// The headers that are collected for a request: those before the first that cannot be sent.
pub open spec fn entering(headers: Seq<HeaderField>) -> Seq<HeaderField>
    decreases headers.len(),
{
    if headers_sendable(headers) || headers.len() == 0 {
        headers
    } else {
        entering(headers.drop_last())
    }
}

/// Headers that can be sent are among those that are collected, up to the first that cannot.
proof fn lemma_entering(headers: Seq<HeaderField>, i: int)
    requires
        0 <= i <= headers.len(),
        headers_sendable(headers.take(i)),
    ensures
        i <= entering(headers).len(),
        entering(headers).take(i) == headers.take(i),
        i == headers.len() || !header_sendable(headers[i]) ==> entering(headers) == headers.take(i),
    decreases headers.len(),
{
    if headers_sendable(headers) {
        if i == headers.len() {
            assert(headers.take(i) =~= headers);
        }
    } else if i == headers.len() {
        assert(headers.take(i) =~= headers);
    } else {
        let rest = headers.drop_last();
        assert(rest.take(i) =~= headers.take(i));
        lemma_entering(rest, i);
    }
}

/// The names among the first headers are among all of them.
proof fn lemma_names_grow(headers: Seq<HeaderField>, i: int)
    requires
        0 <= i <= headers.len(),
    ensures
        collected(headers).dom().finite(),
        collected(headers.take(i)).dom().subset_of(collected(headers).dom()),
        collected(headers.take(i)).dom().len() <= collected(headers).dom().len(),
    decreases headers.len(),
{
    if i == headers.len() {
        assert(headers.take(i) =~= headers);
        if headers.len() > 0 {
            lemma_names_grow(headers.drop_last(), headers.len() - 1);
        }
    } else {
        assert(headers.drop_last().take(i) =~= headers.take(i));
        lemma_names_grow(headers.drop_last(), i);
    }
    vstd::set_lib::lemma_len_subset(
        collected(headers.take(i)).dom(),
        collected(headers).dom(),
    );
}

/// A list of no more headers than a map takes names fits into a map, whatever the names are.
pub proof fn short_header_lists_fit(headers: Seq<HeaderField>)
    requires
        headers.len() <= web::MAX_HEADER_NAMES,
    ensures
        headers_fit(headers),
        headers_fit(entering(headers)),
    decreases headers.len(),
{
    lemma_names_are_headers(headers);
    if !headers_sendable(headers) && headers.len() > 0 {
        short_header_lists_fit(headers.drop_last());
    }
}

/// There are no more names than headers.
proof fn lemma_names_are_headers(headers: Seq<HeaderField>)
    ensures
        collected(headers).dom().finite(),
        collected(headers).dom().len() <= headers.len(),
    decreases headers.len(),
{
    if headers.len() > 0 {
        lemma_names_are_headers(headers.drop_last());
    }
}

/// Whether a request, its host aside, can be sent.
pub open spec fn sendable(message: FetchRequestMessage) -> bool {
    &&& message.method is Some
    &&& message.headers is Some
    &&& headers_sendable(message.headers->0@)
}

/// Whether `request` is what is sent for `message`.
pub open spec fn sent_for(request: OutgoingRequest, message: FetchRequestMessage) -> bool {
    &&& Some(request.method) == message.method
    &&& message.uri is Some && request.uri@ == message.uri->0@
    &&& web::header_values(request.headers) == collected(message.headers->0@)
    &&& (match request.request_id {
        Some(id) => request_id_in(message.headers->0@) == Some(id@),
        None => request_id_in(message.headers->0@) is None,
    })
}

/// The host that a request is for, in lower case.
pub open spec fn host_of(request: Result<FetchRequestMessage, FetchResultError>) -> Result<
    Seq<char>,
    FetchResultError,
> {
    match request {
        Err(err) => Err(err),
        Ok(message) => if message.uri is Some && web::is_uri(message.uri->0@) && web::uri_host(
            message.uri->0@,
        ) is Some {
            Ok(text::lowercase(web::uri_host(message.uri->0@)->0))
        } else {
            Err(FetchResultError::BadRequest)
        },
    }
}

/// Why the body of a request cannot be sent, if it cannot.
pub open spec fn body_error<B>(
    body: Option<RequestBody>,
    bodies: Map<u64, B>,
    instance_alive: bool,
) -> Option<FetchResultError> {
    match body {
        None => Some(FetchResultError::BadRequest),
        Some(RequestBody::Empty) => None,
        Some(RequestBody::Bytes(bytes)) => if bytes is Some {
            None
        } else {
            Some(FetchResultError::BadRequest)
        },
        Some(RequestBody::HostResource(id)) => if bodies.dom().contains(resource::slot_key(id)) {
            None
        } else {
            Some(FetchResultError::BodyHostResourceIdNotFound)
        },
        Some(RequestBody::FunctionStream(_)) => if instance_alive {
            None
        } else {
            Some(FetchResultError::InternalRuntimeAssertionError)
        },
    }
}

/// The bodies that the host still holds once the body of a request has been taken.
pub open spec fn bodies_after<B>(body: Option<RequestBody>, bodies: Map<u64, B>) -> Map<u64, B> {
    match body {
        Some(RequestBody::HostResource(id)) => bodies.remove(resource::slot_key(id)),
        _ => bodies,
    }
}

/// Whether `sent` is what is sent for `body`.
pub open spec fn body_sent_for<B>(
    sent: OutgoingBody<B>,
    body: Option<RequestBody>,
    bodies: Map<u64, B>,
) -> bool {
    match body {
        None => false,
        Some(RequestBody::Empty) => sent is Empty,
        Some(RequestBody::Bytes(bytes)) => sent matches OutgoingBody::Bytes(b) && bytes is Some
            && b@ == bytes->0@,
        Some(RequestBody::HostResource(id)) => sent matches OutgoingBody::Host(b) && b
            == bodies[resource::slot_key(id)],
        Some(RequestBody::FunctionStream(id)) => sent == OutgoingBody::<B>::FunctionStream(id),
    }
}

/// What becomes of a request, in full.
pub open spec fn planned<B>(
    plan: FetchPlan<B>,
    request: Result<FetchRequestMessage, FetchResultError>,
    functions: Map<Seq<char>, FunctionBindingConfig>,
    bodies: Map<u64, B>,
    instance_alive: bool,
) -> bool {
    match host_of(request) {
        Err(err) => plan == FetchPlan::<B>::Fail(err),
        Ok(host) => {
            let message = request->Ok_0;
            if functions.dom().contains(host) {
                if sendable(message) {
                    plan matches FetchPlan::Invoke { function_id, request: out } && function_id@
                        == functions[host].function_id@ && sent_for(out, message)
                } else {
                    plan == FetchPlan::<B>::Fail(FetchResultError::BadRequest)
                }
            } else {
                match body_error(message.body, bodies, instance_alive) {
                    Some(err) => plan == FetchPlan::<B>::Fail(err),
                    None => if !sendable(message) {
                        plan == FetchPlan::<B>::Fail(FetchResultError::BadRequest)
                    } else if host == "kv.fx.internal"@ {
                        plan matches FetchPlan::Kv { request: out, body } && sent_for(out, message)
                            && body_sent_for(body, message.body, bodies)
                    } else if !web::is_url(message.uri->0@) {
                        plan == FetchPlan::<B>::Fail(
                            FetchResultError::InternalRuntimeAssertionError,
                        )
                    } else {
                        plan matches FetchPlan::External { request: out, body } && sent_for(
                            out,
                            message,
                        ) && body_sent_for(body, message.body, bodies)
                    },
                }
            }
        },
    }
}

/// The bodies that the host holds once a request has been planned.
pub open spec fn bodies_after_plan<B>(
    request: Result<FetchRequestMessage, FetchResultError>,
    functions: Map<Seq<char>, FunctionBindingConfig>,
    bodies: Map<u64, B>,
) -> Map<u64, B> {
    match host_of(request) {
        Err(_) => bodies,
        Ok(host) => if functions.dom().contains(host) {
            bodies
        } else {
            bodies_after(request->Ok_0.body, bodies)
        },
    }
}

/// Whether the headers of a request are collected: it has a host, a method and headers.
pub open spec fn headers_enter(request: Result<FetchRequestMessage, FetchResultError>) -> bool {
    &&& host_of(request) is Ok
    &&& request->Ok_0.method is Some
    &&& request->Ok_0.headers is Some
}

/// Whether the headers of a request, where they are collected, fit into a map.
pub open spec fn request_fits(request: Result<FetchRequestMessage, FetchResultError>) -> bool {
    headers_enter(request) ==> headers_fit(entering(request->Ok_0.headers->0@))
}

/// That there are more headers than a map takes.
struct TooManyHeaders {}

/// The headers and the request id of a request, or nothing where a header cannot be sent.
fn collect_headers(headers: &Vec<HeaderField>) -> (sent: Result<
    Option<(http::HeaderMap<http::HeaderValue>, Option<String>)>,
    TooManyHeaders,
>)
    ensures
        sent is Ok == headers_fit(entering(headers@)),
        match sent {
            Err(_) => true,
            Ok(Some((map, id))) => headers_sendable(headers@) && web::header_values(map)
                == collected(headers@) && (match id {
                Some(id) => request_id_in(headers@) == Some(id@),
                None => request_id_in(headers@) is None,
            }),
            Ok(None) => !headers_sendable(headers@),
        },
{
    let mut map = headers_new();
    let mut request_id: Option<String> = None;
    let mut i: usize = 0;
    proof {
        assert(web::header_values(map) =~= collected(headers@.take(0)));
    }
    while i < headers.len()
        invariant
            i <= headers@.len(),
            headers_sendable(headers@.take(i as int)),
            headers_fit(headers@.take(i as int)),
            web::header_values(map) == collected(headers@.take(i as int)),
            match request_id {
                Some(id) => request_id_in(headers@.take(i as int)) == Some(id@),
                None => request_id_in(headers@.take(i as int)) is None,
            },
        decreases headers@.len() - i,
    {
        let header = &headers[i];
        let ghost next = headers@.take(i + 1);
        proof {
            assert(next.drop_last() =~= headers@.take(i as int));
            assert(next.last() == headers@[i as int]);
        }
        match (&header.name, &header.value) {
            (Some(name), Some(value)) => {
                if eq_ignore_ascii_case(name.as_str(), "x-request-id") {
                    request_id = Some(value.clone());
                }
                let name = name.as_str().as_bytes();
                let value = value.as_str().as_bytes();
                if !header_name_ok(name) || !header_value_ok(value) {
                    assert(!header_sendable(headers@[i as int]));
                    proof {
                        lemma_entering(headers@, i as int);
                    }
                    return Ok(None);
                }
                proof {
                    lemma_names_grow(headers@.take(i as int), i as int);
                }
                headers_append(&mut map, name, value);
                proof {
                    assert(header_sendable(headers@[i as int]));
                    assert forall|j: int| 0 <= j < next.len() implies header_sendable(
                        #[trigger] next[j],
                    ) by {
                        if j < i {
                            assert(header_sendable(headers@.take(i as int)[j]));
                        }
                    }
                    lemma_entering(headers@, i + 1);
                    lemma_names_grow(entering(headers@), i + 1);
                }
                if headers_names(&map) > web::MAX_HEADER_NAMES {
                    return Err(TooManyHeaders {  });
                }
            },
            _ => {
                assert(!header_sendable(headers@[i as int]));
                proof {
                    lemma_entering(headers@, i as int);
                }
                return Ok(None);
            },
        }
        i = i + 1;
    }
    assert(headers@.take(headers@.len() as int) =~= headers@);
    proof {
        lemma_entering(headers@, headers@.len() as int);
    }
    Ok(Some((map, request_id)))
}

/// Takes the body of a request.
fn take_body<B>(
    body: Option<RequestBody>,
    http_bodies: &mut ResourceTable<B>,
    instance_alive: bool,
) -> (taken: Result<OutgoingBody<B>, FetchResultError>)
    requires
        old(http_bodies).wf(),
    ensures
        final(http_bodies).wf(),
        final(http_bodies)@ == bodies_after(body, old(http_bodies)@),
        match taken {
            Ok(sent) => body_error(body, old(http_bodies)@, instance_alive) is None
                && body_sent_for(sent, body, old(http_bodies)@),
            Err(err) => body_error(body, old(http_bodies)@, instance_alive) == Some(err),
        },
{
    match body {
        None => Err(FetchResultError::BadRequest),
        Some(RequestBody::Empty) => Ok(OutgoingBody::Empty),
        Some(RequestBody::Bytes(Some(bytes))) => Ok(OutgoingBody::Bytes(bytes)),
        Some(RequestBody::Bytes(None)) => Err(FetchResultError::BadRequest),
        Some(RequestBody::HostResource(id)) => match http_bodies.remove(id) {
            Some(held) => Ok(OutgoingBody::Host(held)),
            None => Err(FetchResultError::BodyHostResourceIdNotFound),
        },
        Some(RequestBody::FunctionStream(id)) => if instance_alive {
            Ok(OutgoingBody::FunctionStream(id))
        } else {
            Err(FetchResultError::InternalRuntimeAssertionError)
        },
    }
}

/// Decides what becomes of a request: `functions` are the bound functions by host,
/// `http_bodies` the bodies that the host holds for the sender, and `instance_alive` says
/// whether the sender is still there to be read from.
pub fn fx_fetch_handler<B>(
    request: Result<FetchRequestMessage, FetchResultError>,
    functions: &Table<String, FunctionBindingConfig>,
    http_bodies: &mut ResourceTable<B>,
    instance_alive: bool,
) -> (plan: FetchPlan<B>)
    requires
        functions.wf(),
        old(http_bodies).wf(),
        request_fits(request),
    ensures
        planned(plan, request, functions@, old(http_bodies)@, instance_alive),
        final(http_bodies).wf(),
        final(http_bodies)@ == bodies_after_plan(request, functions@, old(http_bodies)@),
{
    let message = match request {
        Err(err) => return FetchPlan::Fail(err),
        Ok(message) => message,
    };
    let uri = match message.uri {
        None => return FetchPlan::Fail(FetchResultError::BadRequest),
        Some(uri) => uri,
    };
    if !uri_ok(uri.as_str()) {
        return FetchPlan::Fail(FetchResultError::BadRequest);
    }
    let host = match host_of_uri(uri.as_str()) {
        None => return FetchPlan::Fail(FetchResultError::BadRequest),
        Some(host) => lowercase_text(host.as_str()),
    };
    let headers = match (&message.method, &message.headers) {
        (Some(_), Some(headers)) => match collect_headers(headers) {
            Ok(headers) => headers,
            Err(_) => None,
        },
        _ => None,
    };
    let outgoing = match (message.method, headers) {
        (Some(method), Some((headers, request_id))) => Some(
            OutgoingRequest { method, uri, headers, request_id },
        ),
        _ => None,
    };
    if let Some(binding) = functions.get(&host) {
        return match outgoing {
            Some(request) => FetchPlan::Invoke {
                function_id: binding.function_id.copy_key(),
                request,
            },
            None => FetchPlan::Fail(FetchResultError::BadRequest),
        };
    }
    let body = match take_body(message.body, http_bodies, instance_alive) {
        Ok(body) => body,
        Err(err) => return FetchPlan::Fail(err),
    };
    match outgoing {
        None => FetchPlan::Fail(FetchResultError::BadRequest),
        Some(request) => if same_text(host.as_str(), "kv.fx.internal") {
            FetchPlan::Kv { request, body }
        } else if !url_ok(request.uri.as_str()) {
            FetchPlan::Fail(FetchResultError::InternalRuntimeAssertionError)
        } else {
            FetchPlan::External { request, body }
        },
    }
}

/// Decides what becomes of a request as [`fx_fetch_handler`] does, and leaves everything as it is
/// where the request has more headers than a map takes.
pub fn try_fx_fetch_handler<B>(
    request: Result<FetchRequestMessage, FetchResultError>,
    functions: &Table<String, FunctionBindingConfig>,
    http_bodies: &mut ResourceTable<B>,
    instance_alive: bool,
) -> (plan: Option<FetchPlan<B>>)
    requires
        functions.wf(),
        old(http_bodies).wf(),
    ensures
        final(http_bodies).wf(),
        match plan {
            Some(plan) => request_fits(request) && planned(
                plan,
                request,
                functions@,
                old(http_bodies)@,
                instance_alive,
            ) && final(http_bodies)@ == bodies_after_plan(
                request,
                functions@,
                old(http_bodies)@,
            ),
            None => !request_fits(request) && *final(http_bodies) == *old(http_bodies),
        },
{
    if let Ok(message) = &request {
        if let (Some(_), Some(uri), Some(headers)) = (
            &message.method,
            &message.uri,
            &message.headers,
        ) {
            if uri_ok(uri.as_str()) && host_of_uri(uri.as_str()).is_some() {
                if collect_headers(headers).is_err() {
                    return None;
                }
            }
        }
    }
    Some(fx_fetch_handler(request, functions, http_bodies, instance_alive))
}

/// Whether a request that goes out carries what a message holds: its method, its URI, under the name
/// of each header the values of the headers of that name in their order and no others, and as the id
/// of the request the value of the last header that is named for it.
pub open spec fn carries(request: OutgoingRequest, message: FetchRequestMessage) -> bool {
    let headers = message.headers->0@;
    let sent = web::header_values(request.headers);
    &&& message.method == Some(request.method)
    &&& message.uri matches Some(uri) && uri@ == request.uri@
    &&& message.headers is Some
    &&& forall|key: Seq<u8>| #[trigger]
        sent.dom().contains(key) <==> exists|i: int|
            0 <= i < headers.len() && web::header_key(
                vstd::utf8::encode_utf8((#[trigger] headers[i]).name->0@),
            ) == key
    &&& forall|key: Seq<u8>| #[trigger]
        sent.dom().contains(key) ==> sent[key] == headers.filter(
            |header: HeaderField|
                web::header_key(vstd::utf8::encode_utf8(header.name->0@)) == key,
        ).map_values(|header: HeaderField| vstd::utf8::encode_utf8(header.value->0@))
    &&& match request.request_id {
        Some(id) => exists|i: int|
            0 <= i < headers.len() && text::same_ignoring_ascii_case(
                (#[trigger] headers[i]).name->0@,
                "x-request-id"@,
            ) && headers[i].value->0@ == id@ && forall|j: int|
                i < j < headers.len() ==> !text::same_ignoring_ascii_case(
                    (#[trigger] headers[j]).name->0@,
                    "x-request-id"@,
                ),
        None => forall|i: int|
            0 <= i < headers.len() ==> !text::same_ignoring_ascii_case(
                (#[trigger] headers[i]).name->0@,
                "x-request-id"@,
            ),
    }
}

/// Whether a body that goes out is the one of a message.
pub open spec fn carries_body<B>(
    body: OutgoingBody<B>,
    message: FetchRequestMessage,
    bodies: Map<u64, B>,
) -> bool {
    match body {
        OutgoingBody::Empty => message.body == Some(RequestBody::Empty),
        OutgoingBody::Bytes(bytes) => message.body matches Some(RequestBody::Bytes(Some(given)))
            && given@ == bytes@,
        OutgoingBody::Host(held) => message.body matches Some(RequestBody::HostResource(id))
            && bodies.dom().contains(resource::slot_key(id)) && bodies[resource::slot_key(id)]
            == held,
        OutgoingBody::FunctionStream(id) => message.body == Some(RequestBody::FunctionStream(id)),
    }
}

/// Where a request goes is decided by its host, without regard to case: to the function that is bound
/// to it, to the key-value service or to the network. What goes there carries what the function has
/// written. A request in which everything can be read, and whose body is there, does not fail.
pub proof fn requests_reach_their_hosts<B>(
    request: Result<FetchRequestMessage, FetchResultError>,
    functions: &Table<String, FunctionBindingConfig>,
    instance_alive: bool,
    plan: FetchPlan<B>,
)
    ensures
        forall|bodies: &mut ResourceTable<B>| #[trigger]
            call_ensures(
                fx_fetch_handler::<B>,
                (request, functions, bodies, instance_alive),
                plan,
            ) ==> reaches(request, functions@, bodies@, instance_alive, plan) && left_over(
                request,
                functions@,
                bodies@,
                final(bodies)@,
            ),
        forall|bodies: &mut ResourceTable<B>| #[trigger]
            call_ensures(
                try_fx_fetch_handler::<B>,
                (request, functions, bodies, instance_alive),
                Some(plan),
            ) ==> reaches(request, functions@, bodies@, instance_alive, plan) && left_over(
                request,
                functions@,
                bodies@,
                final(bodies)@,
            ),
{
    assert forall|bodies: Map<u64, B>| #[trigger]
        planned(plan, request, functions@, bodies, instance_alive) implies reaches(
        request,
        functions@,
        bodies,
        instance_alive,
        plan,
    ) by {
        lemma_reaches(request, functions@, bodies, instance_alive, plan);
    }
    assert forall|bodies: Map<u64, B>| left_over(
        request,
        functions@,
        bodies,
        #[trigger] bodies_after_plan(request, functions@, bodies),
    ) by {}
}

/// Whether a header can go out: it has a name and a value, and both are such as headers have.
pub open spec fn can_go_out(header: HeaderField) -> bool {
    match (header.name, header.value) {
        (Some(name), Some(value)) => web::is_header_name(vstd::utf8::encode_utf8(name@))
            && web::is_header_value(vstd::utf8::encode_utf8(value@)),
        _ => false,
    }
}

/// Whether the plan for a request leads to what the request is for.
pub open spec fn reaches<B>(
    request: Result<FetchRequestMessage, FetchResultError>,
    functions: Map<Seq<char>, FunctionBindingConfig>,
    bodies: Map<u64, B>,
    instance_alive: bool,
    plan: FetchPlan<B>,
) -> bool {
    match request {
        Err(err) => plan == FetchPlan::<B>::Fail(err),
        Ok(message) => {
            let named = message.uri is Some && web::is_uri(message.uri->0@) && web::uri_host(
                message.uri->0@,
            ) is Some;
            let host = text::lowercase(web::uri_host(message.uri->0@)->0);
            let readable = message.method is Some && message.headers is Some && forall|i: int|
                0 <= i < message.headers->0@.len() ==> can_go_out(
                    #[trigger] message.headers->0@[i],
                );
            match plan {
                FetchPlan::Invoke { function_id, request: sent } => {
                    &&& named && functions.dom().contains(host)
                    &&& function_id@ == functions[host].function_id@
                    &&& carries(sent, message)
                },
                FetchPlan::Kv { request: sent, body } => {
                    &&& named && !functions.dom().contains(host) && host == "kv.fx.internal"@
                    &&& carries(sent, message) && carries_body(body, message, bodies)
                },
                FetchPlan::External { request: sent, body } => {
                    &&& named && !functions.dom().contains(host) && host != "kv.fx.internal"@
                    &&& web::is_url(message.uri->0@)
                    &&& carries(sent, message) && carries_body(body, message, bodies)
                },
                FetchPlan::Fail(err) => {
                    let bound = functions.dom().contains(host);
                    let there = match message.body {
                        None | Some(RequestBody::Bytes(None)) => false,
                        Some(RequestBody::Empty) | Some(RequestBody::Bytes(Some(_))) => true,
                        Some(RequestBody::HostResource(id)) => bodies.dom().contains(
                            resource::slot_key(id),
                        ),
                        Some(RequestBody::FunctionStream(_)) => instance_alive,
                    };
                    let sendable_to_network = host == "kv.fx.internal"@ || web::is_url(
                        message.uri->0@,
                    );
                    &&& !(named && readable && (bound || there && sendable_to_network))
                    &&& !named || !readable && (bound || there) ==> err
                        == FetchResultError::BadRequest
                    &&& named && !bound && !there ==> err == (match message.body {
                        Some(RequestBody::HostResource(_)) =>
                            FetchResultError::BodyHostResourceIdNotFound,
                        Some(RequestBody::FunctionStream(_)) =>
                            FetchResultError::InternalRuntimeAssertionError,
                        _ => FetchResultError::BadRequest,
                    })
                    &&& named && !bound && there && readable ==> err
                        == FetchResultError::InternalRuntimeAssertionError
                },
            }
        },
    }
}

/// Whether the bodies that the host holds after a request are those before it, but for the one that
/// goes out with a request to the key-value service or to the network.
pub open spec fn left_over<B>(
    request: Result<FetchRequestMessage, FetchResultError>,
    functions: Map<Seq<char>, FunctionBindingConfig>,
    before: Map<u64, B>,
    after: Map<u64, B>,
) -> bool {
    &&& request is Err ==> after == before
    &&& request matches Ok(message) ==> {
        let host = text::lowercase(web::uri_host(message.uri->0@)->0);
        if message.uri is Some && web::is_uri(message.uri->0@) && web::uri_host(
            message.uri->0@,
        ) is Some && !functions.dom().contains(host) {
            match message.body {
                Some(RequestBody::HostResource(id)) => after == before.remove(
                    resource::slot_key(id),
                ),
                _ => after == before,
            }
        } else {
            after == before
        }
    }
}

proof fn lemma_reaches<B>(
    request: Result<FetchRequestMessage, FetchResultError>,
    functions: Map<Seq<char>, FunctionBindingConfig>,
    bodies: Map<u64, B>,
    instance_alive: bool,
    plan: FetchPlan<B>,
)
    requires
        planned(plan, request, functions, bodies, instance_alive),
    ensures
        reaches(request, functions, bodies, instance_alive, plan),
{
    if let Ok(message) = request {
        match plan {
            FetchPlan::Invoke { function_id, request: sent } => {
                lemma_carries(sent, message);
            },
            FetchPlan::Kv { request: sent, body } => {
                lemma_carries(sent, message);
            },
            FetchPlan::External { request: sent, body } => {
                lemma_carries(sent, message);
            },
            FetchPlan::Fail(_) => {
                let headers = message.headers->0@;
                assert(headers_sendable(headers) <==> forall|i: int|
                    0 <= i < headers.len() ==> can_go_out(#[trigger] headers[i])) by {
                    if headers_sendable(headers) {
                        assert forall|i: int| 0 <= i < headers.len() implies can_go_out(
                            #[trigger] headers[i],
                        ) by {
                            assert(header_sendable(headers[i]));
                        }
                    }
                }
            },
        }
    }
}

proof fn lemma_carries(request: OutgoingRequest, message: FetchRequestMessage)
    requires
        sent_for(request, message),
        message.headers is Some,
    ensures
        carries(request, message),
{
    lemma_collected(message.headers->0@);
    lemma_request_id(message.headers->0@);
}

proof fn lemma_request_id(headers: Seq<HeaderField>)
    ensures
        match request_id_in(headers) {
            Some(id) => exists|i: int|
                0 <= i < headers.len() && text::same_ignoring_ascii_case(
                    (#[trigger] headers[i]).name->0@,
                    "x-request-id"@,
                ) && headers[i].value->0@ == id && forall|j: int|
                    i < j < headers.len() ==> !text::same_ignoring_ascii_case(
                        (#[trigger] headers[j]).name->0@,
                        "x-request-id"@,
                    ),
            None => forall|i: int|
                0 <= i < headers.len() ==> !text::same_ignoring_ascii_case(
                    (#[trigger] headers[i]).name->0@,
                    "x-request-id"@,
                ),
        },
    decreases headers.len(),
{
    if headers.len() > 0 {
        let rest = headers.drop_last();
        let last = headers.len() - 1;
        lemma_request_id(rest);
        if text::same_ignoring_ascii_case(headers[last].name->0@, "x-request-id"@) {
        } else if request_id_in(rest) is Some {
            let id = request_id_in(rest)->0;
            let i = choose|i: int|
                0 <= i < rest.len() && text::same_ignoring_ascii_case(
                    (#[trigger] rest[i]).name->0@,
                    "x-request-id"@,
                ) && rest[i].value->0@ == id && forall|j: int|
                    i < j < rest.len() ==> !text::same_ignoring_ascii_case(
                        (#[trigger] rest[j]).name->0@,
                        "x-request-id"@,
                    );
            assert(headers[i] == rest[i]);
            assert forall|j: int| i < j < headers.len() implies !text::same_ignoring_ascii_case(
                (#[trigger] headers[j]).name->0@,
                "x-request-id"@,
            ) by {
                if j < last {
                    assert(rest[j] == headers[j]);
                }
            }
        } else {
            assert forall|i: int| 0 <= i < headers.len() implies !text::same_ignoring_ascii_case(
                (#[trigger] headers[i]).name->0@,
                "x-request-id"@,
            ) by {
                if i < last {
                    assert(rest[i] == headers[i]);
                }
            }
        }
    }
}

proof fn lemma_collected(headers: Seq<HeaderField>)
    ensures
        forall|key: Seq<u8>| #[trigger]
            collected(headers).dom().contains(key) <==> exists|i: int|
                0 <= i < headers.len() && web::header_key(
                    vstd::utf8::encode_utf8((#[trigger] headers[i]).name->0@),
                ) == key,
        forall|key: Seq<u8>|
            #![trigger collected(headers).dom().contains(key)]
            #![trigger collected(headers)[key]]
            headers.filter(
                |header: HeaderField|
                    web::header_key(vstd::utf8::encode_utf8(header.name->0@)) == key,
            ).map_values(|header: HeaderField| vstd::utf8::encode_utf8(header.value->0@)) == (
            if collected(headers).dom().contains(key) {
                collected(headers)[key]
            } else {
                Seq::empty()
            }),
    decreases headers.len(),
{
    reveal(Seq::filter);
    let value = |header: HeaderField| vstd::utf8::encode_utf8(header.value->0@);
    let whole = collected(headers);
    if headers.len() == 0 {
        assert forall|key: Seq<u8>|
            #![trigger whole.dom().contains(key)]
            #![trigger whole[key]]
            headers.filter(
                |header: HeaderField|
                    web::header_key(vstd::utf8::encode_utf8(header.name->0@)) == key,
            ).map_values(value) == (if whole.dom().contains(key) {
                whole[key]
            } else {
                Seq::empty()
            }) by {
            assert(headers.filter(
                |header: HeaderField|
                    web::header_key(vstd::utf8::encode_utf8(header.name->0@)) == key,
            ).map_values(value) =~= Seq::<Seq<u8>>::empty());
        }
    } else {
        let rest = headers.drop_last();
        let last = headers.len() - 1;
        let before = collected(rest);
        lemma_collected(rest);
        let own = web::header_key(vstd::utf8::encode_utf8(headers[last].name->0@));
        assert forall|key: Seq<u8>| #[trigger] whole.dom().contains(key) <==> exists|i: int|
            0 <= i < headers.len() && web::header_key(
                vstd::utf8::encode_utf8((#[trigger] headers[i]).name->0@),
            ) == key by {
            if before.dom().contains(key) {
                let i = choose|i: int|
                    0 <= i < rest.len() && web::header_key(
                        vstd::utf8::encode_utf8((#[trigger] rest[i]).name->0@),
                    ) == key;
                assert(headers[i] == rest[i]);
            }
            if exists|i: int|
                0 <= i < headers.len() && web::header_key(
                    vstd::utf8::encode_utf8((#[trigger] headers[i]).name->0@),
                ) == key {
                let i = choose|i: int|
                    0 <= i < headers.len() && web::header_key(
                        vstd::utf8::encode_utf8((#[trigger] headers[i]).name->0@),
                    ) == key;
                if i < last {
                    assert(rest[i] == headers[i]);
                    assert(before.dom().contains(key));
                }
            }
        }
        assert forall|key: Seq<u8>|
            #![trigger whole.dom().contains(key)]
            #![trigger whole[key]]
            headers.filter(
                |header: HeaderField|
                    web::header_key(vstd::utf8::encode_utf8(header.name->0@)) == key,
            ).map_values(value) == (if whole.dom().contains(key) {
                whole[key]
            } else {
                Seq::empty()
            }) by {
            let named = |header: HeaderField|
                web::header_key(vstd::utf8::encode_utf8(header.name->0@)) == key;
            assert(before.dom().contains(key) || !before.dom().contains(key));
            if key == own {
                assert(headers.filter(named) == rest.filter(named).push(headers[last]));
                assert(headers.filter(named).map_values(value) =~= rest.filter(named).map_values(
                    value,
                ).push(value(headers[last])));
                if !before.dom().contains(key) {
                    assert(whole[key] =~= seq![value(headers[last])]);
                }
            } else {
                assert(headers.filter(named) == rest.filter(named));
            }
        }
    }
}

/// The bytes of a request are those of its part of the memory, one by one.
pub proof fn fetch_requests_are_read_from_their_part<'a>(
    view: Option<&'a [u8]>,
    req_ptr: u64,
    req_len: u64,
    bytes: Result<&'a [u8], FetchResultError>,
)
    requires
        call_ensures(fetch_request_bytes, (view, req_ptr, req_len), bytes),
    ensures
        bytes is Ok <==> view is Some && req_ptr + req_len <= view->0@.len(),
        bytes is Ok ==> bytes->Ok_0@.len() == req_len && forall|i: int|
            0 <= i < req_len ==> #[trigger] bytes->Ok_0@[i] == view->0@[req_ptr + i],
        bytes is Err ==> bytes->Err_0 is FailedToReadRequest,
{
}

/// Nothing is planned only for a request with more headers than a map has room for names.
pub proof fn only_long_requests_are_not_planned<B>(
    request: Result<FetchRequestMessage, FetchResultError>,
    functions: &Table<String, FunctionBindingConfig>,
    instance_alive: bool,
)
    ensures
        forall|bodies: &mut ResourceTable<B>| #[trigger]
            call_ensures(
                try_fx_fetch_handler::<B>,
                (request, functions, bodies, instance_alive),
                None,
            ) ==> *final(bodies) == *bodies && request is Ok && request->Ok_0.headers is Some
                && request->Ok_0.headers->0@.len() > 6553,
{
    if request is Ok && request->Ok_0.headers is Some && request->Ok_0.headers->0@.len() <= 6553 {
        short_header_lists_fit(request->Ok_0.headers->0@);
    }
}

} // verus!
