//! The key-value store: requests, what they become, and what they are answered.
use vstd::prelude::*;

use crate::definitions::bindings::KvBindingConfig;
use crate::poll::Poll;
use crate::table::Table;
use crate::text;
use crate::text::{decode_text, owned, same_text};

verus! {

/// A request to give a key a value: only where it has none (`nx`), for so many milliseconds
/// (`px_ms`).
#[derive(Debug)]
pub struct KvSetRequest {
    pub key: Vec<u8>,
    pub value: Vec<u8>,
    pub nx: bool,
    pub px_ms: Option<u64>,
}

impl KvSetRequest {
    pub fn new(key: Vec<u8>, value: Vec<u8>) -> (request: Self)
        ensures
            request == (KvSetRequest { key, value, nx: false, px_ms: None }),
    {
        KvSetRequest { key, value, nx: false, px_ms: None }
    }

    pub fn with_nx(self, nx: bool) -> (request: Self)
        ensures
            request == (KvSetRequest { nx, ..self }),
    {
        KvSetRequest { nx, ..self }
    }

    pub fn with_px(self, px_ms: Option<u64>) -> (request: Self)
        ensures
            request == (KvSetRequest { px_ms, ..self }),
    {
        KvSetRequest { px_ms, ..self }
    }
}

/// A request to delete a key that still has a given value.
#[derive(Debug)]
pub struct KvDelexRequest {
    pub key: Vec<u8>,
    pub ifeq: Vec<u8>,
}

/// A request to publish data to a channel.
#[derive(Debug)]
pub struct KvPublishRequest {
    pub channel: Vec<u8>,
    pub data: Vec<u8>,
}

/// What a store is asked to do.
#[derive(Debug)]
pub enum KvOperation {
    Get { key: Vec<u8> },
    SetKey(KvSetRequest),
    Delex(KvDelexRequest),
    Publish(KvPublishRequest),
    Subscribe { channel: Vec<u8> },
}

/// A message to the store.
#[derive(Debug)]
pub struct KvMessage {
    pub namespace: String,
    pub operation: KvOperation,
}

/// Why the store did not set a key.
#[derive(Clone, Copy, Debug, PartialEq, Eq, Structural)]
pub enum KvSetError {
    /// key already exists
    AlreadyExists,
}

/// Why a key was not set.
#[derive(Clone, Copy, Debug, PartialEq, Eq, Structural)]
pub enum KvSetHandlerError {
    /// key already exists
    AlreadyExists,
    /// runtime is being shut down
    RuntimeShutdown,
    /// binding with requested name is not found
    BindingNotFound,
    /// invalid kv set request
    BadRequest,
}

impl From<KvSetError> for KvSetHandlerError {
    fn from(err: KvSetError) -> (out: Self) {
        match err {
            KvSetError::AlreadyExists => KvSetHandlerError::AlreadyExists,
        }
    }
}

impl vstd::std_specs::convert::FromSpecImpl<KvSetError> for KvSetHandlerError {
    open spec fn obeys_from_spec() -> bool {
        true
    }

    open spec fn from_spec(err: KvSetError) -> Self {
        KvSetHandlerError::AlreadyExists
    }
}

/// Why a key was not read.
#[derive(Clone, Copy, Debug, PartialEq, Eq, Structural)]
pub enum KvGetHandlerError {
    /// key not found
    KeyNotFound,
    /// runtime is being shut down
    RuntimeShutdown,
    /// binding with requested name is not found
    BindingNotFound,
    /// invalid kv get request
    BadRequest,
    /// failed to read request
    FailedToReadRequest,
}

/// Why a key was not deleted.
#[derive(Clone, Copy, Debug, PartialEq, Eq, Structural)]
pub enum KvDelexHandlerError {
    /// runtime is being shut down
    RuntimeShutdown,
    /// failed to read request
    FailedToReadRequest,
    /// invalid kv delex request
    BadRequest,
    /// binding with requested name is not found
    BindingNotFound,
}

/// Why data was not published.
#[derive(Clone, Copy, Debug, PartialEq, Eq, Structural)]
pub enum KvPublishHandlerError {
    /// binding with requested name is not found
    BindingNotFound,
    /// runtime is being shut down
    RuntimeShutdown,
    /// invalid kv publish request
    BadRequest,
    /// failed to read request
    FailedToReadRequest,
}

/// Why a channel was not subscribed to.
#[derive(Clone, Copy, Debug, PartialEq, Eq, Structural)]
pub enum KvSubscriptionHandlerError {
    /// runtime is being shut down
    RuntimeShutdown,
    /// binding with request name is not found
    BindingNotFound,
    /// invalid kv subscription request
    BadRequest,
    /// failed to read request
    FailedToReadRequest,
}

/// A subscription: waiting for the store to open it (`I`), or open (`S`).
pub enum KvSubscriptionResource<I, S> {
    Init(I),
    Stream(S),
}

/// What a subscription that was asked for an item does next.
#[derive(Clone, Copy, Debug, PartialEq, Eq, Structural)]
pub enum SubscriptionStep {
    /// There is no item yet.
    Wait,
    /// The open stream is asked.
    PollStream,
}

impl<I, S> KvSubscriptionResource<I, S> {
    /// What is asked next, from what the wait for the store gave; once the stream is there it
    /// takes the place of the wait and is asked at once.
    pub fn poll_next(&mut self, opened: Poll<S>) -> (step: SubscriptionStep)
        ensures
            match *old(self) {
                KvSubscriptionResource::Stream(_) => step == SubscriptionStep::PollStream
                    && *final(self) == *old(self),
                KvSubscriptionResource::Init(_) => match opened {
                    Poll::Pending => step == SubscriptionStep::Wait && *final(self) == *old(self),
                    Poll::Ready(stream) => step == SubscriptionStep::PollStream && *final(self)
                        == KvSubscriptionResource::<I, S>::Stream(stream),
                },
            },
    {
        let waiting = match self {
            KvSubscriptionResource::Init(_) => true,
            KvSubscriptionResource::Stream(_) => false,
        };
        if !waiting {
            return SubscriptionStep::PollStream;
        }
        match opened {
            Poll::Pending => SubscriptionStep::Wait,
            Poll::Ready(stream) => {
                *self = KvSubscriptionResource::Stream(stream);
                SubscriptionStep::PollStream
            },
        }
    }
}

/// The paths of the service that functions reach over HTTP.
#[derive(Clone, Copy, Debug, PartialEq, Eq, Structural)]
pub enum KvRoute {
    Get,
    SetKey,
    Publish,
    /// Any other path, which is answered by [`crate::web::not_found`].
    NotFound,
}

/// What a path of the service stands for.
pub fn handle_kv_request(path: &str) -> (route: KvRoute)
    ensures
        route == (if path@ == "/get"@ {
            KvRoute::Get
        } else if path@ == "/set"@ {
            KvRoute::SetKey
        } else if path@ == "/publish"@ {
            KvRoute::Publish
        } else {
            KvRoute::NotFound
        }),
{
    if same_text(path, "/get") {
        KvRoute::Get
    } else if same_text(path, "/set") {
        KvRoute::SetKey
    } else if same_text(path, "/publish") {
        KvRoute::Publish
    } else {
        KvRoute::NotFound
    }
}

/// Why a binding that a request names cannot be used.
pub enum BindingFault {
    /// The name is missing or no text.
    Unreadable,
    /// There is no binding of that name.
    Unknown,
}

/// The namespace behind the binding that a request names.
pub open spec fn namespace_of(
    binding: Option<Seq<u8>>,
    bindings: Map<Seq<char>, KvBindingConfig>,
) -> Result<Seq<char>, BindingFault> {
    match binding {
        None => Err(BindingFault::Unreadable),
        Some(bytes) => match text::utf8_text(bytes) {
            None => Err(BindingFault::Unreadable),
            Some(name) => if bindings.dom().contains(name) {
                Ok(bindings[name].namespace@)
            } else {
                Err(BindingFault::Unknown)
            },
        },
    }
}

/// The view of an optional list of bytes.
pub open spec fn bytes_view(bytes: Option<Vec<u8>>) -> Option<Seq<u8>> {
    match bytes {
        Some(b) => Some(b@),
        None => None,
    }
}

fn find_namespace(
    binding: &Option<Vec<u8>>,
    bindings: &Table<String, KvBindingConfig>,
) -> (namespace: Result<String, BindingFault>)
    requires
        bindings.wf(),
    ensures
        match namespace {
            Ok(name) => namespace_of(bytes_view(*binding), bindings@) == Ok::<
                Seq<char>,
                BindingFault,
            >(name@),
            Err(fault) => namespace_of(bytes_view(*binding), bindings@) == Err::<
                Seq<char>,
                BindingFault,
            >(fault),
        },
{
    match binding {
        None => Err(BindingFault::Unreadable),
        Some(bytes) => match decode_text(bytes.as_slice()) {
            None => Err(BindingFault::Unreadable),
            Some(name) => match bindings.get(&owned(name)) {
                None => Err(BindingFault::Unknown),
                Some(binding) => Ok(binding.namespace.clone()),
            },
        },
    }
}

/// What a request to read a key becomes; a part of the request that could not be decoded is
/// missing.
pub fn handle_kv_get(
    binding: Option<Vec<u8>>,
    key: Option<Vec<u8>>,
    bindings: &Table<String, KvBindingConfig>,
) -> (message: Result<KvMessage, KvGetHandlerError>)
    requires
        bindings.wf(),
    ensures
        match namespace_of(bytes_view(binding), bindings@) {
            Err(BindingFault::Unreadable) => message == Err::<KvMessage, _>(
                KvGetHandlerError::BadRequest,
            ),
            Err(BindingFault::Unknown) => message == Err::<KvMessage, _>(
                KvGetHandlerError::BindingNotFound,
            ),
            Ok(namespace) => match key {
                None => message == Err::<KvMessage, _>(KvGetHandlerError::BadRequest),
                Some(key) => message is Ok && message->Ok_0.namespace@ == namespace
                    && message->Ok_0.operation == (KvOperation::Get { key }),
            },
        },
{
    let namespace = match find_namespace(&binding, bindings) {
        Ok(namespace) => namespace,
        Err(BindingFault::Unreadable) => return Err(KvGetHandlerError::BadRequest),
        Err(BindingFault::Unknown) => return Err(KvGetHandlerError::BindingNotFound),
    };
    match key {
        None => Err(KvGetHandlerError::BadRequest),
        Some(key) => Ok(KvMessage { namespace, operation: KvOperation::Get { key } }),
    }
}

/// What a request to set a key becomes; a part of the request that could not be decoded is
/// missing. A `px` of zero or less sets no end.
pub fn handle_kv_set(
    binding: Option<Vec<u8>>,
    key: Option<Vec<u8>>,
    value: Option<Vec<u8>>,
    nx: u8,
    px: i64,
    bindings: &Table<String, KvBindingConfig>,
) -> (message: Result<KvMessage, KvSetHandlerError>)
    requires
        bindings.wf(),
    ensures
        match namespace_of(bytes_view(binding), bindings@) {
            Err(BindingFault::Unreadable) => message == Err::<KvMessage, _>(
                KvSetHandlerError::BadRequest,
            ),
            Err(BindingFault::Unknown) => message == Err::<KvMessage, _>(
                KvSetHandlerError::BindingNotFound,
            ),
            Ok(namespace) => match (key, value) {
                (Some(key), Some(value)) => message is Ok && message->Ok_0.namespace@ == namespace
                    && message->Ok_0.operation == KvOperation::SetKey(
                    (KvSetRequest {
                        key,
                        value,
                        nx: nx != 0,
                        px_ms: if px > 0 {
                            Some(px as u64)
                        } else {
                            None
                        },
                    }),
                ),
                _ => message == Err::<KvMessage, _>(KvSetHandlerError::BadRequest),
            },
        },
{
    let namespace = match find_namespace(&binding, bindings) {
        Ok(namespace) => namespace,
        Err(BindingFault::Unreadable) => return Err(KvSetHandlerError::BadRequest),
        Err(BindingFault::Unknown) => return Err(KvSetHandlerError::BindingNotFound),
    };
    match (key, value) {
        (Some(key), Some(value)) => {
            let px_ms: Option<u64> = if px > 0 {
                Some(px as u64)
            } else {
                None
            };
            let request = KvSetRequest::new(key, value).with_nx(nx != 0).with_px(px_ms);
            Ok(KvMessage { namespace, operation: KvOperation::SetKey(request) })
        },
        _ => Err(KvSetHandlerError::BadRequest),
    }
}

/// What a request to publish becomes; a part of the request that could not be decoded is missing.
pub fn handle_kv_publish(
    binding: Option<Vec<u8>>,
    channel: Option<Vec<u8>>,
    data: Option<Vec<u8>>,
    bindings: &Table<String, KvBindingConfig>,
) -> (message: Result<KvMessage, KvPublishHandlerError>)
    requires
        bindings.wf(),
    ensures
        match namespace_of(bytes_view(binding), bindings@) {
            Err(BindingFault::Unreadable) => message == Err::<KvMessage, _>(
                KvPublishHandlerError::BadRequest,
            ),
            Err(BindingFault::Unknown) => message == Err::<KvMessage, _>(
                KvPublishHandlerError::BindingNotFound,
            ),
            Ok(namespace) => match (channel, data) {
                (Some(channel), Some(data)) => message is Ok && message->Ok_0.namespace@
                    == namespace && message->Ok_0.operation == KvOperation::Publish(
                    (KvPublishRequest { channel, data }),
                ),
                _ => message == Err::<KvMessage, _>(KvPublishHandlerError::BadRequest),
            },
        },
{
    let namespace = match find_namespace(&binding, bindings) {
        Ok(namespace) => namespace,
        Err(BindingFault::Unreadable) => return Err(KvPublishHandlerError::BadRequest),
        Err(BindingFault::Unknown) => return Err(KvPublishHandlerError::BindingNotFound),
    };
    match (channel, data) {
        (Some(channel), Some(data)) => Ok(
            KvMessage {
                namespace,
                operation: KvOperation::Publish(KvPublishRequest { channel, data }),
            },
        ),
        _ => Err(KvPublishHandlerError::BadRequest),
    }
}

/// What a store answered: nothing where the message did not reach it or it gave no answer.
pub fn set_outcome(answer: Option<Result<(), KvSetError>>) -> (outcome: Result<
    (),
    KvSetHandlerError,
>)
    ensures
        outcome == (match answer {
            None => Err::<(), _>(KvSetHandlerError::RuntimeShutdown),
            Some(Ok(())) => Ok(()),
            Some(Err(KvSetError::AlreadyExists)) => Err(KvSetHandlerError::AlreadyExists),
        }),
{
    match answer {
        None => Err(KvSetHandlerError::RuntimeShutdown),
        Some(Ok(())) => Ok(()),
        Some(Err(err)) => Err(KvSetHandlerError::from(err)),
    }
}

/// What a function is told about a key that it asked for.
#[derive(Debug)]
pub enum KvGetReply {
    Value(Vec<u8>),
    KeyNotFound,
    RuntimeShutdown,
    BindingNotFound,
    BadRequest,
    FailedToReadRequest,
}

/// What a function is told about a key that it asked for: a key without a value is not found.
pub fn kv_get_reply(outcome: Result<Option<Vec<u8>>, KvGetHandlerError>) -> (reply: KvGetReply)
    ensures
        reply == (match outcome {
            Ok(Some(value)) => KvGetReply::Value(value),
            Ok(None) => KvGetReply::KeyNotFound,
            Err(KvGetHandlerError::KeyNotFound) => KvGetReply::KeyNotFound,
            Err(KvGetHandlerError::RuntimeShutdown) => KvGetReply::RuntimeShutdown,
            Err(KvGetHandlerError::BindingNotFound) => KvGetReply::BindingNotFound,
            Err(KvGetHandlerError::BadRequest) => KvGetReply::BadRequest,
            Err(KvGetHandlerError::FailedToReadRequest) => KvGetReply::FailedToReadRequest,
        }),
{
    match outcome {
        Ok(Some(value)) => KvGetReply::Value(value),
        Ok(None) => KvGetReply::KeyNotFound,
        Err(KvGetHandlerError::KeyNotFound) => KvGetReply::KeyNotFound,
        Err(KvGetHandlerError::RuntimeShutdown) => KvGetReply::RuntimeShutdown,
        Err(KvGetHandlerError::BindingNotFound) => KvGetReply::BindingNotFound,
        Err(KvGetHandlerError::BadRequest) => KvGetReply::BadRequest,
        Err(KvGetHandlerError::FailedToReadRequest) => KvGetReply::FailedToReadRequest,
    }
}

/// A request of a function goes to the namespace of the binding that it names, with its own key, value,
/// channel and data, and as the operation that it is.
pub proof fn requests_go_to_the_bound_namespace(
    binding: Vec<u8>,
    name: Seq<char>,
    first: Vec<u8>,
    second: Vec<u8>,
    nx: u8,
    px: i64,
    bindings: &Table<String, KvBindingConfig>,
    get: Result<KvMessage, KvGetHandlerError>,
    put: Result<KvMessage, KvSetHandlerError>,
    published: Result<KvMessage, KvPublishHandlerError>,
)
    requires
        text::utf8_text(binding@) == Some(name),
        call_ensures(handle_kv_get, (Some(binding), Some(first), bindings), get),
        call_ensures(
            handle_kv_set,
            (Some(binding), Some(first), Some(second), nx, px, bindings),
            put,
        ),
        call_ensures(
            handle_kv_publish,
            (Some(binding), Some(first), Some(second), bindings),
            published,
        ),
    ensures
        get is Ok <==> bindings@.dom().contains(name),
        put is Ok <==> bindings@.dom().contains(name),
        published is Ok <==> bindings@.dom().contains(name),
        get is Ok ==> get->Ok_0.namespace@ == bindings@[name].namespace@ && (
        get->Ok_0.operation matches KvOperation::Get { key } && key == first),
        put is Ok ==> put->Ok_0.namespace@ == bindings@[name].namespace@ && (
        put->Ok_0.operation matches KvOperation::SetKey(sent) && sent.key == first && sent.value
            == second && sent.nx == (nx != 0) && (px <= 0 ==> sent.px_ms is None) && (px > 0
            ==> sent.px_ms is Some && sent.px_ms->0 == px)),
        published is Ok ==> published->Ok_0.namespace@ == bindings@[name].namespace@ && (
        published->Ok_0.operation matches KvOperation::Publish(sent) && sent.channel == first
            && sent.data == second),
        get is Err ==> get->Err_0 is BindingNotFound,
        put is Err ==> put->Err_0 is BindingNotFound,
        published is Err ==> published->Err_0 is BindingNotFound,
{
}

/// A request that lacks a part is refused as a bad one, and one whose binding is no text as well; the
/// binding is looked at first.
pub proof fn incomplete_requests_are_refused(
    binding: Option<Vec<u8>>,
    first: Option<Vec<u8>>,
    second: Option<Vec<u8>>,
    nx: u8,
    px: i64,
    bindings: &Table<String, KvBindingConfig>,
    get: Result<KvMessage, KvGetHandlerError>,
    put: Result<KvMessage, KvSetHandlerError>,
    published: Result<KvMessage, KvPublishHandlerError>,
)
    requires
        call_ensures(handle_kv_get, (binding, first, bindings), get),
        call_ensures(handle_kv_set, (binding, first, second, nx, px, bindings), put),
        call_ensures(handle_kv_publish, (binding, first, second, bindings), published),
    ensures
        binding is None || text::utf8_text(binding->0@) is None ==> get == Err::<KvMessage, _>(
            KvGetHandlerError::BadRequest,
        ) && put == Err::<KvMessage, _>(KvSetHandlerError::BadRequest) && published == Err::<
            KvMessage,
            _,
        >(KvPublishHandlerError::BadRequest),
        first is None ==> get is Err && put is Err && published is Err,
        second is None ==> put is Err && published is Err,
        get matches Err(err) ==> err is BadRequest || err is BindingNotFound,
        put matches Err(err) ==> err is BadRequest || err is BindingNotFound,
        published matches Err(err) ==> err is BadRequest || err is BindingNotFound,
{
}

/// What the store answered is what the function is told: that the key is set, that it already had a
/// value, or that there was no answer.
pub proof fn set_answers_are_told(
    answer: Option<Result<(), KvSetError>>,
    outcome: Result<(), KvSetHandlerError>,
)
    requires
        call_ensures(set_outcome, (answer,), outcome),
    ensures
        outcome is Ok <==> (answer matches Some(Ok(_))),
        outcome matches Err(KvSetHandlerError::AlreadyExists) <==> (answer matches Some(Err(_))),
        outcome matches Err(KvSetHandlerError::RuntimeShutdown) <==> answer is None,
{
}

/// A value is told as it is, and each failure as what it is; a key without a value is not found however
/// that was noticed.
pub proof fn get_answers_are_told(
    outcome: Result<Option<Vec<u8>>, KvGetHandlerError>,
    reply: KvGetReply,
    value: Vec<u8>,
)
    requires
        call_ensures(kv_get_reply, (outcome,), reply),
    ensures
        reply == KvGetReply::Value(value) <==> outcome == Ok::<_, KvGetHandlerError>(Some(value)),
        reply is KeyNotFound <==> outcome == Ok::<Option<Vec<u8>>, KvGetHandlerError>(None)
            || outcome == Err::<Option<Vec<u8>>, _>(KvGetHandlerError::KeyNotFound),
        reply is RuntimeShutdown <==> outcome == Err::<Option<Vec<u8>>, _>(
            KvGetHandlerError::RuntimeShutdown,
        ),
        reply is BindingNotFound <==> outcome == Err::<Option<Vec<u8>>, _>(
            KvGetHandlerError::BindingNotFound,
        ),
        reply is BadRequest <==> outcome == Err::<Option<Vec<u8>>, _>(KvGetHandlerError::BadRequest),
        reply is FailedToReadRequest <==> outcome == Err::<Option<Vec<u8>>, _>(
            KvGetHandlerError::FailedToReadRequest,
        ),
{
}

/// Each path has its own operation, and no other path has one.
pub proof fn kv_paths_have_their_operations(path: &str, route: KvRoute)
    requires
        call_ensures(handle_kv_request, (path,), route),
    ensures
        route is Get <==> path@ == "/get"@,
        route is SetKey <==> path@ == "/set"@,
        route is Publish <==> path@ == "/publish"@,
{
    reveal_strlit("/get");
    reveal_strlit("/set");
    reveal_strlit("/publish");
    assert("/get"@[1] != "/set"@[1]);
    assert("/get"@.len() != "/publish"@.len());
}

/// A subscription waits until its stream is there, keeps the stream that it got, and reads from it from
/// then on.
pub proof fn opened_subscriptions_stay_open<I, S>(opened: Poll<S>, step: SubscriptionStep)
    ensures
        forall|subscription: &mut KvSubscriptionResource<I, S>| #[trigger]
            call_ensures(
                KvSubscriptionResource::<I, S>::poll_next,
                (subscription, opened),
                step,
            ) ==> {
                &&& step is Wait <==> *subscription is Init && opened is Pending
                &&& step is PollStream <==> *final(subscription) is Stream
                &&& *subscription is Stream ==> *final(subscription) == *subscription
                &&& *subscription is Init && opened is Ready ==> *final(subscription)
                    == KvSubscriptionResource::<I, S>::Stream(opened->Ready_0)
                &&& *subscription is Init && opened is Pending ==> *final(subscription)
                    == *subscription
            },
{
}

/// A request to set a key has the key and the value that it was made with, and is bound by neither a
/// condition nor a time until it is given one, which changes nothing else.
pub proof fn conditions_are_set_apart(
    key: Vec<u8>,
    value: Vec<u8>,
    request: KvSetRequest,
    nx: bool,
    once: KvSetRequest,
    px_ms: Option<u64>,
    timed: KvSetRequest,
)
    requires
        call_ensures(KvSetRequest::new, (key, value), request),
        call_ensures(KvSetRequest::with_nx, (request, nx), once),
        call_ensures(KvSetRequest::with_px, (once, px_ms), timed),
    ensures
        request.key@ == key@ && request.value@ == value@ && !request.nx && request.px_ms is None,
        once.key@ == key@ && once.value@ == value@ && once.nx == nx && once.px_ms is None,
        timed.key@ == key@ && timed.value@ == value@ && timed.nx == nx && timed.px_ms == px_ms,
{
}

} // verus!
