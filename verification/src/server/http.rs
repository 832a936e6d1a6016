//! How requests are answered that a function serves.
use vstd::prelude::*;

use crate::function::id::FunctionId;
use crate::runtime::error::FunctionInvokeAndExecuteError;
use crate::streams::{FxStream, HostPoolIndex, StreamsPool};
use crate::text::{owned, text_of};

verus! {

/// How long a function may take to answer, in seconds.
pub const INVOKE_TIMEOUT_SECONDS: u64 = 60;

/// An answer to a request.
#[derive(Debug)]
pub struct HttpResponse {
    pub status: u16,
    pub headers: Vec<(String, Vec<u8>)>,
    pub body: Vec<u8>,
}

/// An answer that the server gives itself.
#[derive(Clone, Copy, Debug, PartialEq, Eq, Structural)]
pub enum ErrorResponse {
    ServiceNotFound,
    InternalError,
    ApplicationError,
    FunctionMisconfigured,
}

impl ErrorResponse {
    pub open spec fn status_of(self) -> u16 {
        match self {
            ErrorResponse::ServiceNotFound => 404,
            ErrorResponse::InternalError => 500,
            ErrorResponse::ApplicationError => 502,
            ErrorResponse::FunctionMisconfigured => 502,
        }
    }

    pub open spec fn body_of(self) -> Seq<char> {
        match self {
            ErrorResponse::ServiceNotFound => "fx error: service not found.\n"@,
            ErrorResponse::InternalError => "fx: internal runtime error.\n"@,
            ErrorResponse::ApplicationError => "fx: function error.\n"@,
            ErrorResponse::FunctionMisconfigured => "fx: function misconfigured.\n"@,
        }
    }

    pub fn status(&self) -> (status: u16)
        ensures
            status == self.status_of(),
    {
        match self {
            ErrorResponse::ServiceNotFound => 404,
            ErrorResponse::InternalError => 500,
            ErrorResponse::ApplicationError => 502,
            ErrorResponse::FunctionMisconfigured => 502,
        }
    }

    pub fn body(&self) -> (body: String)
        ensures
            body@ == self.body_of(),
    {
        match self {
            ErrorResponse::ServiceNotFound => owned("fx error: service not found.\n"),
            ErrorResponse::InternalError => owned("fx: internal runtime error.\n"),
            ErrorResponse::ApplicationError => owned("fx: function error.\n"),
            ErrorResponse::FunctionMisconfigured => owned("fx: function misconfigured.\n"),
        }
    }
}

/// What is answered when a function fails. What its code did wrong is a bad gateway; what the
/// runtime did wrong is its own error.
pub open spec fn error_response(err: FunctionInvokeAndExecuteError) -> ErrorResponse {
    match err {
        FunctionInvokeAndExecuteError::UserApplicationError { .. } =>
            ErrorResponse::ApplicationError,
        FunctionInvokeAndExecuteError::FunctionPanicked { .. } => ErrorResponse::ApplicationError,
        FunctionInvokeAndExecuteError::DefinitionMissing(_) => ErrorResponse::FunctionMisconfigured,
        FunctionInvokeAndExecuteError::HandlerNotDefined => ErrorResponse::FunctionMisconfigured,
        FunctionInvokeAndExecuteError::CodeNotFound => ErrorResponse::ServiceNotFound,
        _ => ErrorResponse::InternalError,
    }
}

/// What is answered when a function fails.
pub fn response_for_error(err: &FunctionInvokeAndExecuteError) -> (response: ErrorResponse)
    ensures
        response == error_response(*err),
{
    match err {
        FunctionInvokeAndExecuteError::RuntimeError => ErrorResponse::InternalError,
        FunctionInvokeAndExecuteError::FunctionRuntimeError => ErrorResponse::InternalError,
        FunctionInvokeAndExecuteError::UserApplicationError { .. } =>
            ErrorResponse::ApplicationError,
        FunctionInvokeAndExecuteError::FunctionPanicked { .. } => ErrorResponse::ApplicationError,
        FunctionInvokeAndExecuteError::DefinitionMissing(_) => ErrorResponse::FunctionMisconfigured,
        FunctionInvokeAndExecuteError::HandlerNotDefined => ErrorResponse::FunctionMisconfigured,
        FunctionInvokeAndExecuteError::CodeNotFound => ErrorResponse::ServiceNotFound,
        FunctionInvokeAndExecuteError::CodeFailedToLoad(_) => ErrorResponse::InternalError,
        FunctionInvokeAndExecuteError::FailedToCompile(_) => ErrorResponse::InternalError,
        FunctionInvokeAndExecuteError::FailedToInstantiate(_) => ErrorResponse::InternalError,
    }
}

/// What became of a request that was handed to a function.
#[derive(Debug)]
pub enum Served {
    /// The body of the request could not be put into the pool of streams.
    NotPushed,
    /// The function took too long.
    TimedOut,
    Failed(FunctionInvokeAndExecuteError),
    Answered(HttpResponse),
}

/// The answer to a request: that of the function, or one of the server.
#[derive(Debug)]
pub enum RequestAnswer {
    Function(HttpResponse),
    Server(ErrorResponse),
}

/// The answer to a request, from what became of it.
pub open spec fn answer_to(served: Served) -> RequestAnswer {
    match served {
        Served::NotPushed => RequestAnswer::Server(ErrorResponse::InternalError),
        Served::TimedOut => RequestAnswer::Server(ErrorResponse::InternalError),
        Served::Failed(err) => RequestAnswer::Server(error_response(err)),
        Served::Answered(response) => RequestAnswer::Function(response),
    }
}

/// The answer to a request.
pub fn respond(served: Served) -> (answer: RequestAnswer)
    ensures
        answer == answer_to(served),
{
    match served {
        Served::NotPushed => RequestAnswer::Server(ErrorResponse::InternalError),
        Served::TimedOut => RequestAnswer::Server(ErrorResponse::InternalError),
        Served::Failed(err) => RequestAnswer::Server(response_for_error(&err)),
        Served::Answered(response) => RequestAnswer::Function(response),
    }
}

/// Only a request that its function has answered gets an answer that is not one of the server, and
/// every answer of the server says that something failed.
pub proof fn failures_are_answered_as_failures(err: FunctionInvokeAndExecuteError)
    ensures
        400 <= error_response(err).status_of() < 600,
        error_response(err).status_of() == 404 <==> err
            == FunctionInvokeAndExecuteError::CodeNotFound,
{
}

/// How many requests are being served, and how many were.
#[derive(Clone, Copy, Debug, PartialEq, Eq, Structural)]
pub struct RequestGauges {
    pub requests_in_flight: i64,
    pub futures_in_flight: i64,
    pub functions_in_flight: i64,
    pub requests_total: u64,
}

impl RequestGauges {
    /// The gauges with other numbers of what is in flight.
    pub open spec fn shifted(self, requests: int, futures: int, functions: int, total: int) -> Self {
        RequestGauges {
            requests_in_flight: (self.requests_in_flight + requests) as i64,
            futures_in_flight: (self.futures_in_flight + futures) as i64,
            functions_in_flight: (self.functions_in_flight + functions) as i64,
            requests_total: (self.requests_total + total) as u64,
        }
    }

    /// A request has come.
    pub fn request_started(&mut self)
        requires
            old(self).requests_in_flight < i64::MAX,
        ensures
            *final(self) == old(self).shifted(1, 0, 0, 0),
    {
        self.requests_in_flight = self.requests_in_flight + 1;
    }

    /// The server works on a request.
    pub fn future_started(&mut self)
        requires
            old(self).futures_in_flight < i64::MAX,
        ensures
            *final(self) == old(self).shifted(0, 1, 0, 0),
    {
        self.futures_in_flight = self.futures_in_flight + 1;
    }

    /// A function works on a request.
    pub fn function_started(&mut self)
        requires
            old(self).functions_in_flight < i64::MAX,
        ensures
            *final(self) == old(self).shifted(0, 0, 1, 0),
    {
        self.functions_in_flight = self.functions_in_flight + 1;
    }

    /// A function is done with a request.
    pub fn function_finished(&mut self)
        requires
            old(self).functions_in_flight > i64::MIN,
        ensures
            *final(self) == old(self).shifted(0, 0, -1, 0),
    {
        self.functions_in_flight = self.functions_in_flight - 1;
    }

    /// A request is answered.
    pub fn request_finished(&mut self)
        requires
            old(self).requests_in_flight > i64::MIN,
            old(self).futures_in_flight > i64::MIN,
            old(self).requests_total < u64::MAX,
        ensures
            *final(self) == old(self).shifted(-1, -1, 0, 1),
    {
        self.requests_in_flight = self.requests_in_flight - 1;
        self.futures_in_flight = self.futures_in_flight - 1;
        self.requests_total = self.requests_total + 1;
    }
}

/// The header that names a request.
pub const REQUEST_ID_HEADER: &'static str = "x-request-id";

/// Whether the value of a header is a text: visible characters of ASCII, spaces and tabs.
pub open spec fn is_shown(value: Seq<u8>) -> bool {
    forall|i: int| 0 <= i < value.len() ==> shows(#[trigger] value[i])
}

/// Whether a byte of a header is one of a text.
pub open spec fn shows(byte: u8) -> bool {
    32 <= byte < 127 || byte == 9
}

/// The name that a request gives itself: the value of the first header for it, where that is a
/// text.
pub open spec fn request_name(headers: Seq<(String, Vec<u8>)>) -> Option<Seq<char>>
    decreases headers.len(),
{
    if headers.len() == 0 {
        None
    } else if headers[0].0@ == REQUEST_ID_HEADER@ {
        if is_shown(headers[0].1@) {
            Some(headers[0].1@.map_values(|b: u8| b as char))
        } else {
            None
        }
    } else {
        request_name(headers.skip(1))
    }
}

fn shown(value: &Vec<u8>) -> (text: Option<String>)
    ensures
        match text {
            Some(text) => is_shown(value@) && text@ == value@.map_values(|b: u8| b as char),
            None => !is_shown(value@),
        },
{
    let mut chars: Vec<char> = Vec::new();
    let mut i: usize = 0;
    while i < value.len()
        invariant
            i <= value@.len(),
            forall|j: int| 0 <= j < i ==> shows(#[trigger] value@[j]),
            chars@ =~= value@.take(i as int).map_values(|b: u8| b as char),
        decreases value@.len() - i,
    {
        let byte: u8 = value[i];
        if !(32 <= byte && byte < 127 || byte == 9) {
            assert(!shows(value@[i as int]));
            return None;
        }
        chars.push(byte as char);
        i = i + 1;
    }
    assert(value@.take(i as int) =~= value@);
    Some(text_of(&chars))
}

fn find_request_name(headers: &Vec<(String, Vec<u8>)>) -> (name: Option<String>)
    ensures
        match name {
            Some(name) => request_name(headers@) == Some(name@),
            None => request_name(headers@) is None,
        },
{
    let mut i: usize = 0;
    assert(headers@.skip(0) =~= headers@);
    while i < headers.len()
        invariant
            i <= headers@.len(),
            request_name(headers@) == request_name(headers@.skip(i as int)),
        decreases headers@.len() - i,
    {
        assert(headers@.skip(i as int)[0] == headers@[i as int]);
        assert(headers@.skip(i as int).skip(1) =~= headers@.skip(i + 1));
        if headers[i].0.as_str().eq(REQUEST_ID_HEADER) {
            return shown(&headers[i].1);
        }
        i = i + 1;
    }
    None
}

/// A request as a function gets it, its body by the number of a stream.
#[derive(Debug)]
pub struct HttpRequest {
    pub method: String,
    pub url: String,
    pub headers: Vec<(String, Vec<u8>)>,
    pub body: Option<i64>,
}

/// The handler of a function that serves requests.
pub const HTTP_HANDLER: &'static str = "http";

/// A request that is being served.
#[derive(Debug)]
pub struct HttpHandlerFuture {
    pub function_id: FunctionId,
    /// What the request is called.
    pub request_id: Option<String>,
    /// The body in the pool of streams, once a function works on the request.
    pub body: Option<HostPoolIndex>,
}

impl HttpHandlerFuture {
    /// A request has come.
    pub fn new(
        function_id: FunctionId,
        headers: &Vec<(String, Vec<u8>)>,
        gauges: &mut RequestGauges,
    ) -> (request: Self)
        requires
            old(gauges).requests_in_flight < i64::MAX,
            old(gauges).futures_in_flight < i64::MAX,
        ensures
            request.function_id == function_id,
            request.body is None,
            match request.request_id {
                Some(id) => request_name(headers@) == Some(id@),
                None => request_name(headers@) is None,
            },
            *final(gauges) == old(gauges).shifted(1, 1, 0, 0),
    {
        gauges.request_started();
        gauges.future_started();
        HttpHandlerFuture { function_id, request_id: find_request_name(headers), body: None }
    }

    /// What the function is handed: the request, with its body in the pool of streams. Nothing
    /// where the pool does not take the body.
    pub fn invoke<S>(
        &mut self,
        streams: &mut StreamsPool<S>,
        gauges: &mut RequestGauges,
        parts: (String, String, Vec<(String, Vec<u8>)>),
        body: S,
    ) -> (request: Option<HttpRequest>)
        requires
            old(self).body is None,
            old(streams).wf(),
            old(streams).inner.counter < u64::MAX,
            old(gauges).functions_in_flight < i64::MAX,
        ensures
            final(streams).wf(),
            final(streams).poisoned == old(streams).poisoned,
            final(self).function_id == old(self).function_id,
            final(self).request_id == old(self).request_id,
            match request {
                None => old(streams).poisoned && *final(streams) == *old(streams)
                    && *final(gauges) == *old(gauges) && final(self).body is None,
                Some(request) => !old(streams).poisoned && request == (HttpRequest {
                    method: parts.0,
                    url: parts.1,
                    headers: parts.2,
                    body: Some(old(streams).inner.counter as i64),
                }) && final(self).body == Some(HostPoolIndex(old(streams).inner.counter))
                    && final(streams).inner.pool@ == old(streams).inner.pool@.insert(
                    old(streams).inner.counter,
                    FxStream::HostStream(body),
                ) && final(streams).inner.counter == old(streams).inner.counter + 1 && *final(
                    gauges
                ) == old(gauges).shifted(0, 0, 1, 0),
            },
    {
        match streams.push(body) {
            Err(_) => None,
            Ok(index) => {
                let number: i64 = index.0 as i64;
                self.body = Some(index);
                gauges.function_started();
                Some(
                    HttpRequest {
                        method: parts.0,
                        url: parts.1,
                        headers: parts.2,
                        body: Some(number),
                    },
                )
            },
        }
    }

    /// The answer to the request. What is left of its body goes out of the pool of streams.
    pub fn finish<S>(
        self,
        served: Served,
        streams: &mut StreamsPool<S>,
        gauges: &mut RequestGauges,
    ) -> (answer: RequestAnswer)
        requires
            old(streams).wf(),
            old(gauges).functions_in_flight > i64::MIN,
            old(gauges).requests_in_flight > i64::MIN,
            old(gauges).futures_in_flight > i64::MIN,
            old(gauges).requests_total < u64::MAX,
        ensures
            final(streams).wf(),
            final(streams).poisoned == old(streams).poisoned,
            final(streams).inner.counter == old(streams).inner.counter,
            final(streams).inner.pool@ == (match self.body {
                Some(index) if !old(streams).poisoned => old(streams).inner.pool@.remove(index.0),
                _ => old(streams).inner.pool@,
            }),
            *final(gauges) == old(gauges).shifted(
                -1,
                -1,
                if self.body is Some {
                    -1
                } else {
                    0
                },
                1,
            ),
            answer == answer_to(served),
    {
        if let Some(index) = &self.body {
            gauges.function_finished();
            let _removed = streams.remove(index);
        }
        gauges.request_finished();
        respond(served)
    }
}

/// A request that a function served leaves nothing behind: the pool of streams is as it was, whether
/// or not the function took the body out, and only the count of all requests has grown.
pub proof fn served_requests_leave_nothing_behind<S>(
    pool: Map<u64, FxStream<S>>,
    gauges: RequestGauges,
    index: u64,
    body: S,
    taken: bool,
)
    requires
        !pool.dom().contains(index),
        gauges.requests_in_flight < i64::MAX,
        gauges.futures_in_flight < i64::MAX,
        gauges.functions_in_flight < i64::MAX,
        gauges.requests_total < u64::MAX,
    ensures
        ({
            let invoked = pool.insert(index, FxStream::HostStream(body));
            let served = if taken {
                invoked.remove(index)
            } else {
                invoked
            };
            served.remove(index) == pool
        }),
        gauges.shifted(1, 1, 0, 0).shifted(0, 0, 1, 0).shifted(-1, -1, -1, 1) == gauges.shifted(
            0,
            0,
            0,
            1,
        ),
{
    let invoked = pool.insert(index, FxStream::HostStream(body));
    assert(invoked.remove(index) =~= pool);
    assert(invoked.remove(index).remove(index) =~= pool);
}

/// Hands requests to a function, which can be changed.
#[derive(Debug)]
pub struct HttpHandler {
    pub function_id: FunctionId,
}

impl HttpHandler {
    pub fn new(function_id: FunctionId) -> (handler: Self)
        ensures
            handler.function_id == function_id,
    {
        HttpHandler { function_id }
    }

    /// Has the requests that come from now on served by another function.
    pub fn update_target_function(&mut self, function_id: FunctionId)
        ensures
            final(self).function_id == function_id,
    {
        self.function_id = function_id;
    }
}

proof fn lemma_request_name(headers: Seq<(String, Vec<u8>)>, i: int)
    requires
        0 <= i < headers.len(),
        headers[i].0@ == "x-request-id"@,
        forall|j: int| 0 <= j < i ==> (#[trigger] headers[j]).0@ != "x-request-id"@,
    ensures
        request_name(headers) == (if is_shown(headers[i].1@) {
            Some(headers[i].1@.map_values(|b: u8| b as char))
        } else {
            None
        }),
    decreases i,
{
    assert(REQUEST_ID_HEADER@ == "x-request-id"@);
    if i > 0 {
        let rest = headers.skip(1);
        assert(headers[0].0@ != "x-request-id"@);
        assert forall|j: int| 0 <= j < i - 1 implies (#[trigger] rest[j]).0@ != "x-request-id"@ by {
            assert(headers[j + 1].0@ != "x-request-id"@);
        }
        lemma_request_name(rest, i - 1);
    }
}

proof fn lemma_no_request_name(headers: Seq<(String, Vec<u8>)>)
    requires
        forall|j: int| 0 <= j < headers.len() ==> (#[trigger] headers[j]).0@ != "x-request-id"@,
    ensures
        request_name(headers) is None,
    decreases headers.len(),
{
    assert(REQUEST_ID_HEADER@ == "x-request-id"@);
    if headers.len() > 0 {
        let rest = headers.skip(1);
        assert(headers[0].0@ != "x-request-id"@);
        assert forall|j: int| 0 <= j < rest.len() implies (#[trigger] rest[j]).0@
            != "x-request-id"@ by {
            assert(headers[j + 1].0@ != "x-request-id"@);
        }
        lemma_no_request_name(rest);
    }
}

/// A request is named by the first header that names requests, character by character, where that can
/// be shown, and has no name else; it is counted as being served.
pub proof fn requests_are_named_by_their_header(
    function_id: FunctionId,
    headers: &Vec<(String, Vec<u8>)>,
    request: HttpHandlerFuture,
    i: int,
)
    ensures
        forall|gauges: &mut RequestGauges| #[trigger]
            call_ensures(HttpHandlerFuture::new, (function_id, headers, gauges), request) ==> {
                &&& request.function_id@ == function_id@
                &&& request.body is None
                &&& (forall|j: int|
                    0 <= j < headers@.len() ==> (#[trigger] headers@[j]).0@ != "x-request-id"@)
                    ==> request.request_id is None
                &&& 0 <= i < headers@.len() && headers@[i].0@ == "x-request-id"@ && (forall|j: int|
                    0 <= j < i ==> (#[trigger] headers@[j]).0@ != "x-request-id"@) ==> {
                    let value = headers@[i].1@;
                    &&& request.request_id is Some <==> forall|k: int|
                        0 <= k < value.len() ==> 32 <= (#[trigger] value[k]) < 127 || value[k] == 9
                    &&& request.request_id is Some ==> request.request_id->0@.len() == value.len()
                        && forall|k: int|
                        0 <= k < value.len() ==> (#[trigger] request.request_id->0@[k]) as int
                            == value[k]
                }
                &&& gauges.requests_in_flight < i64::MAX && gauges.futures_in_flight < i64::MAX
                    ==> final(gauges).requests_in_flight == gauges.requests_in_flight + 1
                    && final(gauges).futures_in_flight == gauges.futures_in_flight + 1
                    && final(gauges).functions_in_flight == gauges.functions_in_flight
                    && final(gauges).requests_total == gauges.requests_total
            },
{
    if forall|j: int| 0 <= j < headers@.len() ==> (#[trigger] headers@[j]).0@ != "x-request-id"@ {
        lemma_no_request_name(headers@);
    }
    if 0 <= i < headers@.len() && headers@[i].0@ == "x-request-id"@ && (forall|j: int|
        0 <= j < i ==> (#[trigger] headers@[j]).0@ != "x-request-id"@) {
        lemma_request_name(headers@, i);
        let value = headers@[i].1@;
        assert(is_shown(value) <==> forall|k: int|
            0 <= k < value.len() ==> 32 <= (#[trigger] value[k]) < 127 || value[k] == 9) by {
            if is_shown(value) {
                assert forall|k: int| 0 <= k < value.len() implies 32 <= (#[trigger] value[k]) < 127
                    || value[k] == 9 by {
                    assert(shows(value[k]));
                }
            }
        }
    }
}

/// What a function answered is the answer; everything else is answered by the server: a function that
/// is not there as not found, one that failed or is not set up rightly as a bad gateway, and every
/// other failure as one of the server.
pub proof fn outcomes_have_their_answers(
    served: Served,
    answer: RequestAnswer,
    err: ErrorResponse,
    status: u16,
    body: String,
)
    requires
        call_ensures(respond, (served,), answer),
        answer matches RequestAnswer::Server(told) ==> told == err,
        call_ensures(ErrorResponse::status, (&err,), status),
        call_ensures(ErrorResponse::body, (&err,), body),
    ensures
        served matches Served::Answered(response) ==> answer == RequestAnswer::Function(response),
        served !is Answered ==> answer is Server,
        served is NotPushed || served is TimedOut ==> status == 500 && body@
            == "fx: internal runtime error.\n"@,
        served matches Served::Failed(fault) ==> {
            &&& status == 404 <==> fault is CodeNotFound
            &&& status == 502 <==> fault is UserApplicationError || fault is FunctionPanicked
                || fault is DefinitionMissing || fault is HandlerNotDefined
            &&& status == 404 || status == 502 || status == 500
            &&& fault is CodeNotFound ==> body@ == "fx error: service not found.\n"@
            &&& fault is UserApplicationError || fault is FunctionPanicked ==> body@
                == "fx: function error.\n"@
            &&& fault is DefinitionMissing || fault is HandlerNotDefined ==> body@
                == "fx: function misconfigured.\n"@
            &&& status == 500 ==> body@ == "fx: internal runtime error.\n"@
        },
{
}

/// A request is handed to the function as it came, with its body kept under the number that it names;
/// nothing is handed over where the streams are broken.
pub proof fn requests_are_handed_over_as_they_came<S>(
    parts: (String, String, Vec<(String, Vec<u8>)>),
    body: S,
    request: Option<HttpRequest>,
    other: u64,
)
    ensures
        forall|
            future: &mut HttpHandlerFuture,
            streams: &mut StreamsPool<S>,
            gauges: &mut RequestGauges,
        | #[trigger]
            call_ensures(
                HttpHandlerFuture::invoke::<S>,
                (future, streams, gauges, parts, body),
                request,
            ) ==> {
                &&& request is None <==> streams.poisoned
                &&& request is Some ==> {
                    let kept = (final(future).body->0).0;
                    &&& request->0.method@ == parts.0@
                    &&& request->0.url@ == parts.1@
                    &&& request->0.headers@ == parts.2@
                    &&& request->0.body == Some(kept as i64)
                    &&& final(future).body is Some
                    &&& final(streams).inner.pool@.dom().contains(kept)
                    &&& final(streams).inner.pool@[kept] == FxStream::HostStream(body)
                    &&& other != kept && streams.inner.pool@.dom().contains(other) ==> final(
                        streams
                    ).inner.pool@.dom().contains(other) && final(streams).inner.pool@[other]
                        == streams.inner.pool@[other]
                    &&& gauges.functions_in_flight < i64::MAX ==> final(gauges).functions_in_flight
                        == gauges.functions_in_flight + 1
                    &&& final(gauges).requests_in_flight == gauges.requests_in_flight
                    &&& final(gauges).requests_total == gauges.requests_total
                }
                &&& request is None ==> *final(streams) == *streams && *final(gauges) == *gauges
            },
{
}

/// Each step of a request moves its own gauge by one and no other.
pub proof fn steps_move_their_own_gauges()
    ensures
        forall|g: &mut RequestGauges| #[trigger]
            call_ensures(RequestGauges::request_started, (g,), ()) && g.requests_in_flight < i64::MAX
                ==> final(g).requests_in_flight == g.requests_in_flight + 1
                && final(g).futures_in_flight == g.futures_in_flight
                && final(g).functions_in_flight == g.functions_in_flight
                && final(g).requests_total == g.requests_total,
        forall|g: &mut RequestGauges| #[trigger]
            call_ensures(RequestGauges::future_started, (g,), ()) && g.futures_in_flight < i64::MAX
                ==> final(g).requests_in_flight == g.requests_in_flight
                && final(g).futures_in_flight == g.futures_in_flight + 1
                && final(g).functions_in_flight == g.functions_in_flight
                && final(g).requests_total == g.requests_total,
        forall|g: &mut RequestGauges| #[trigger]
            call_ensures(RequestGauges::function_started, (g,), ()) && g.functions_in_flight
                < i64::MAX ==> final(g).requests_in_flight == g.requests_in_flight
                && final(g).futures_in_flight == g.futures_in_flight
                && final(g).functions_in_flight == g.functions_in_flight + 1
                && final(g).requests_total == g.requests_total,
        forall|g: &mut RequestGauges| #[trigger]
            call_ensures(RequestGauges::function_finished, (g,), ()) && g.functions_in_flight
                > i64::MIN ==> final(g).requests_in_flight == g.requests_in_flight
                && final(g).futures_in_flight == g.futures_in_flight
                && final(g).functions_in_flight == g.functions_in_flight - 1
                && final(g).requests_total == g.requests_total,
        forall|g: &mut RequestGauges| #[trigger]
            call_ensures(RequestGauges::request_finished, (g,), ()) && g.requests_in_flight
                > i64::MIN && g.futures_in_flight > i64::MIN && g.requests_total < u64::MAX ==> final(
                g
            ).requests_in_flight == g.requests_in_flight - 1 && final(g).futures_in_flight
                == g.futures_in_flight - 1 && final(g).functions_in_flight == g.functions_in_flight
                && final(g).requests_total == g.requests_total + 1,
{
}

/// When a request is over its body is no longer kept, the others are, it no longer counts as being
/// served and counts as served, and it is answered with what came of it.
pub proof fn finished_requests_are_cleared<S>(
    future: HttpHandlerFuture,
    served: Served,
    answer: RequestAnswer,
    responded: RequestAnswer,
    other: u64,
)
    requires
        call_ensures(respond, (served,), responded),
    ensures
        forall|streams: &mut StreamsPool<S>, gauges: &mut RequestGauges| #[trigger]
            call_ensures(
                HttpHandlerFuture::finish::<S>,
                (future, served, streams, gauges),
                answer,
            ) ==> {
                &&& answer == responded
                &&& future.body is Some && !streams.poisoned ==> !final(streams).inner.pool@.dom().contains(
                (future.body->0).0,
                )
                &&& (future.body is None || other != (future.body->0).0)
                    && streams.inner.pool@.dom().contains(other) ==> final(streams).inner.pool@.dom().contains(
                other,
                ) && final(streams).inner.pool@[other] == streams.inner.pool@[other]
                &&& gauges.requests_in_flight > i64::MIN && gauges.futures_in_flight > i64::MIN
                    && gauges.functions_in_flight > i64::MIN && gauges.requests_total < u64::MAX ==> final(
                    gauges
                ).requests_in_flight == gauges.requests_in_flight - 1 && final(
                    gauges
                ).futures_in_flight == gauges.futures_in_flight - 1 && final(gauges).requests_total
                    == gauges.requests_total + 1 && final(gauges).functions_in_flight == (
                if future.body is Some {
                    gauges.functions_in_flight - 1
                } else {
                    gauges.functions_in_flight as int
                })
            },
{
}

} // verus!
