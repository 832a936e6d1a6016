//! An instance of a function: its state on the host's side, and what its exported functions
//! answer.
use vstd::prelude::*;
use vstd::slice::slice_subrange;

use crate::definitions::bindings::{
    BlobBindingConfig, FunctionBindingConfig, KvBindingConfig, SqlBindingConfig,
};
use crate::effects::metrics::FunctionMetricsState;
use crate::function::id::FunctionId;
use crate::function::memory;
use crate::poll::Poll;
use crate::resources::resource;
use crate::resources::resource::{FunctionResourceId, ResourceTable};
use crate::table::Table;
use crate::web;
use crate::web::{header_name_ok, header_value_ok, headers_insert, headers_new, status_ok};

verus! {

/// After how many milliseconds a function that runs lets others run.
pub const SCHEDULING_YIELD_INTERVALS: u64 = 10;

/// How long a function that is invoked is waited for while it is busy, in seconds.
pub const BUSY_TIMEOUT_SECONDS: u64 = 1;

/// How a call of an exported function ended early.
#[derive(Clone, Copy, Debug, PartialEq, Eq, Structural)]
pub enum WasmFunctionCallError {
    /// function panicked when called
    Panicked,
    /// function crashed when called
    Crashed,
}

/// A panic in a function ends in an unreachable instruction; every other trap is a crash.
pub fn call_error(unreachable_code_reached: bool) -> (err: WasmFunctionCallError)
    ensures
        err == (if unreachable_code_reached {
            WasmFunctionCallError::Panicked
        } else {
            WasmFunctionCallError::Crashed
        }),
{
    if unreachable_code_reached {
        WasmFunctionCallError::Panicked
    } else {
        WasmFunctionCallError::Crashed
    }
}

/// Why an instance could not be made.
#[derive(Clone, Copy, Debug, PartialEq, Eq, Structural)]
pub enum FunctionInstanceInitError {
    /// function does not provide export that fx runtime expects to be present
    MissingExport,
    /// function does not provide memory export that fx runtime expects to be present
    MissingMemory,
    /// failed to create function instance because of unknown error
    UnknownError,
    /// internal runtime assertion error
    InternalRuntimeAssertionError,
}

/// The functions that an instance exports for the host.
pub fn expected_exports() -> (names: Vec<&'static str>)
    ensures
        names@.len() == 5,
        names@[0]@ == "_fx_http_body_frame_poll"@,
        names@[1]@ == "_fx_bytes_drop"@,
        names@[2]@ == "_fx_background_task_poll"@,
        names@[3]@ == "_fx_function_response_poll"@,
        names@[4]@ == "__fx_handler"@,
{
    vec![
        "_fx_http_body_frame_poll",
        "_fx_bytes_drop",
        "_fx_background_task_poll",
        "_fx_function_response_poll",
        "__fx_handler",
    ]
}

/// Whether an instance is usable, from what was found of it: that it could be made at all, that
/// it exports its memory, and which of [`expected_exports`] it exports.
pub fn check_instance(instantiated: bool, has_memory: bool, exports: &Vec<bool>) -> (checked: Result<
    (),
    FunctionInstanceInitError,
>)
    ensures
        checked is Ok <==> instantiated && has_memory && !exports@.contains(false),
        checked == (if !instantiated {
            Err::<(), _>(FunctionInstanceInitError::UnknownError)
        } else if !has_memory {
            Err(FunctionInstanceInitError::MissingMemory)
        } else if exists|i: int| 0 <= i < exports@.len() && !#[trigger] exports@[i] {
            Err(FunctionInstanceInitError::MissingExport)
        } else {
            Ok(())
        }),
{
    if !instantiated {
        return Err(FunctionInstanceInitError::UnknownError);
    }
    if !has_memory {
        return Err(FunctionInstanceInitError::MissingMemory);
    }
    let mut i: usize = 0;
    while i < exports.len()
        invariant
            instantiated && has_memory,
            i <= exports@.len(),
            forall|j: int| 0 <= j < i ==> #[trigger] exports@[j],
        decreases exports@.len() - i,
    {
        if !exports[i] {
            return Err(FunctionInstanceInitError::MissingExport);
        }
        i = i + 1;
    }
    Ok(())
}

/// Why a frame of a body could not be had from a function.
#[derive(Clone, Copy, Debug, PartialEq, Eq, Structural)]
pub enum HttpBodyFramePollError {
    /// function abi returned incorrect data when polling http body stream
    AbiError,
    /// an assertion failed when polling http body stream
    AssertionError,
    /// function panicked when polling http body stream
    FunctionPanicked,
    /// function crashed when polling http body stream
    FunctionCrashed,
}

impl From<WasmFunctionCallError> for HttpBodyFramePollError {
    fn from(err: WasmFunctionCallError) -> (out: Self) {
        match err {
            WasmFunctionCallError::Panicked => HttpBodyFramePollError::FunctionPanicked,
            WasmFunctionCallError::Crashed => HttpBodyFramePollError::FunctionCrashed,
        }
    }
}

impl vstd::std_specs::convert::FromSpecImpl<WasmFunctionCallError> for HttpBodyFramePollError {
    open spec fn obeys_from_spec() -> bool {
        true
    }

    open spec fn from_spec(err: WasmFunctionCallError) -> Self {
        match err {
            WasmFunctionCallError::Panicked => HttpBodyFramePollError::FunctionPanicked,
            WasmFunctionCallError::Crashed => HttpBodyFramePollError::FunctionCrashed,
        }
    }
}

/// The record that a function writes when it is asked for a frame.
#[derive(Clone, Copy, Debug, PartialEq, Eq, Structural)]
pub struct FramePollRecord {
    pub tag: u64,
    pub frame_bytes_resource_id: u64,
    pub frame_bytes_addr: u64,
    pub frame_bytes_len: u64,
}

/// A frame that lies in the memory of a function.
#[derive(Clone, Copy, Debug, PartialEq, Eq, Structural)]
pub struct FunctionFrame {
    pub resource_id: FunctionResourceId,
    pub ptr: u64,
    pub len: u64,
}

impl FunctionFrame {
    /// The bytes of the frame.
    pub fn as_ref<'a>(&self, view: &'a [u8]) -> (bytes: &'a [u8])
        requires
            memory::within(view@, self.ptr, self.len),
        ensures
            bytes@ == memory::bytes_at(view@, self.ptr, self.len),
    {
        let size: usize = view.len();
        assert(self.ptr + self.len <= size);
        slice_subrange(view, self.ptr as usize, (self.ptr + self.len) as usize)
    }
}

/// What a function answers when it is asked for a frame: `called` is the record that it wrote,
/// nothing in it where the record could not be read.
pub fn http_body_frame_poll(
    called: Result<Option<FramePollRecord>, WasmFunctionCallError>,
    instance_alive: bool,
) -> (frame: Poll<Result<Option<FunctionFrame>, HttpBodyFramePollError>>)
    ensures
        match called {
            Err(WasmFunctionCallError::Panicked) => frame == Poll::Ready(
                Err::<Option<FunctionFrame>, _>(HttpBodyFramePollError::FunctionPanicked),
            ),
            Err(WasmFunctionCallError::Crashed) => frame == Poll::Ready(
                Err::<Option<FunctionFrame>, _>(HttpBodyFramePollError::FunctionCrashed),
            ),
            Ok(None) => frame == Poll::Ready(
                Err::<Option<FunctionFrame>, _>(HttpBodyFramePollError::AbiError),
            ),
            Ok(Some(record)) => if record.tag == 2 {
                frame is Pending
            } else if record.tag == 0 {
                frame == Poll::Ready(Ok::<Option<FunctionFrame>, HttpBodyFramePollError>(None))
            } else if record.tag == 1 && instance_alive {
                frame == Poll::Ready(
                    Ok::<_, HttpBodyFramePollError>(
                        Some(
                            (FunctionFrame {
                                resource_id: FunctionResourceId {
                                    id: record.frame_bytes_resource_id,
                                },
                                ptr: record.frame_bytes_addr,
                                len: record.frame_bytes_len,
                            }),
                        ),
                    ),
                )
            } else if record.tag == 1 {
                frame == Poll::Ready(
                    Err::<Option<FunctionFrame>, _>(HttpBodyFramePollError::AssertionError),
                )
            } else {
                frame == Poll::Ready(
                    Err::<Option<FunctionFrame>, _>(HttpBodyFramePollError::AbiError),
                )
            },
        },
{
    match called {
        Err(err) => Poll::Ready(Err(HttpBodyFramePollError::from(err))),
        Ok(None) => Poll::Ready(Err(HttpBodyFramePollError::AbiError)),
        Ok(Some(record)) => match record.tag {
            2 => Poll::Pending,
            0 => Poll::Ready(Ok(None)),
            1 => if instance_alive {
                Poll::Ready(
                    Ok(
                        Some(
                            FunctionFrame {
                                resource_id: FunctionResourceId::new(
                                    record.frame_bytes_resource_id,
                                ),
                                ptr: record.frame_bytes_addr,
                                len: record.frame_bytes_len,
                            },
                        ),
                    ),
                )
            } else {
                Poll::Ready(Err(HttpBodyFramePollError::AssertionError))
            },
            _ => Poll::Ready(Err(HttpBodyFramePollError::AbiError)),
        },
    }
}

/// Why a stream of a function ended early.
#[derive(Clone, Copy, Debug, PartialEq, Eq, Structural)]
pub enum FunctionFramePollError {
    /// failed to poll frame because of error in sdk on function side
    InternalSdkError,
    /// internal runtime assertion error
    AssertionError,
    /// function panicked when polling frame
    FunctionPanicked,
    /// function crashed when polling frame
    FunctionCrashed,
}

impl From<HttpBodyFramePollError> for FunctionFramePollError {
    fn from(err: HttpBodyFramePollError) -> (out: Self) {
        match err {
            HttpBodyFramePollError::AbiError => FunctionFramePollError::InternalSdkError,
            HttpBodyFramePollError::AssertionError => FunctionFramePollError::AssertionError,
            HttpBodyFramePollError::FunctionPanicked => FunctionFramePollError::FunctionPanicked,
            HttpBodyFramePollError::FunctionCrashed => FunctionFramePollError::FunctionCrashed,
        }
    }
}

impl vstd::std_specs::convert::FromSpecImpl<HttpBodyFramePollError> for FunctionFramePollError {
    open spec fn obeys_from_spec() -> bool {
        true
    }

    open spec fn from_spec(err: HttpBodyFramePollError) -> Self {
        match err {
            HttpBodyFramePollError::AbiError => FunctionFramePollError::InternalSdkError,
            HttpBodyFramePollError::AssertionError => FunctionFramePollError::AssertionError,
            HttpBodyFramePollError::FunctionPanicked => FunctionFramePollError::FunctionPanicked,
            HttpBodyFramePollError::FunctionCrashed => FunctionFramePollError::FunctionCrashed,
        }
    }
}

/// A wait for a frame: `C` is a call of the function that has not returned yet.
pub struct FunctionFramePollFuture<C> {
    pub inner_poll_future: Option<C>,
}

impl<C> FunctionFramePollFuture<C> {
    pub fn new() -> (future: Self)
        ensures
            future.inner_poll_future is None,
    {
        FunctionFramePollFuture { inner_poll_future: None }
    }

    /// Whether a call has to be started before the wait can go on.
    pub fn needs_call(&self) -> (needed: bool)
        ensures
            needed == (self.inner_poll_future is None),
    {
        self.inner_poll_future.is_none()
    }

    /// Takes a call into the wait; one that is under way is kept instead.
    pub fn start_call(&mut self, call: C)
        ensures
            final(self).inner_poll_future == (match old(self).inner_poll_future {
                Some(kept) => Some(kept),
                None => Some(call),
            }),
    {
        if self.inner_poll_future.is_none() {
            self.inner_poll_future = Some(call);
        }
    }

    /// What the wait yields once its call was asked: a call that returned is over, and what it
    /// returned is the outcome, not done where the function said so.
    pub fn poll<T>(
        &mut self,
        call: Poll<Poll<Result<T, HttpBodyFramePollError>>>,
    ) -> (outcome: Poll<Result<T, FunctionFramePollError>>)
        ensures
            match call {
                Poll::Pending => outcome is Pending && final(self).inner_poll_future == old(
                    self,
                ).inner_poll_future,
                Poll::Ready(answer) => final(self).inner_poll_future is None && match answer {
                    Poll::Pending => outcome is Pending,
                    Poll::Ready(Ok(value)) => outcome == Poll::Ready(
                        Ok::<T, FunctionFramePollError>(value),
                    ),
                    Poll::Ready(Err(err)) => outcome == Poll::Ready(
                        Err::<T, FunctionFramePollError>(
                            <FunctionFramePollError as vstd::std_specs::convert::FromSpec<
                                HttpBodyFramePollError,
                            >>::from_spec(err),
                        ),
                    ),
                },
            },
    {
        match call {
            Poll::Pending => Poll::Pending,
            Poll::Ready(answer) => {
                self.inner_poll_future = None;
                match answer {
                    Poll::Pending => Poll::Pending,
                    Poll::Ready(Ok(value)) => Poll::Ready(Ok(value)),
                    Poll::Ready(Err(err)) => Poll::Ready(Err(FunctionFramePollError::from(err))),
                }
            },
        }
    }
}

/// Why a function could not be invoked.
#[derive(Clone, Copy, Debug, PartialEq, Eq, Structural)]
pub enum InvokeError {
    /// function is busy handling other requests and cannot accept new request
    Busy,
    /// function panicked when invoked
    Panicked,
    /// function stopped with unknown wasm trap when invoked
    Crashed,
}

impl From<WasmFunctionCallError> for InvokeError {
    fn from(err: WasmFunctionCallError) -> (out: Self) {
        match err {
            WasmFunctionCallError::Panicked => InvokeError::Panicked,
            WasmFunctionCallError::Crashed => InvokeError::Crashed,
        }
    }
}

impl vstd::std_specs::convert::FromSpecImpl<WasmFunctionCallError> for InvokeError {
    open spec fn obeys_from_spec() -> bool {
        true
    }

    open spec fn from_spec(err: WasmFunctionCallError) -> Self {
        match err {
            WasmFunctionCallError::Panicked => InvokeError::Panicked,
            WasmFunctionCallError::Crashed => InvokeError::Crashed,
        }
    }
}

/// What invoking a function gives: `called` is nothing where its store was not free in time,
/// else what the call of its handler returned.
pub fn invoke_http_trigger(called: Option<Result<u64, WasmFunctionCallError>>) -> (response: Result<
    FunctionResourceId,
    InvokeError,
>)
    ensures
        match called {
            None => response == Err::<FunctionResourceId, _>(InvokeError::Busy),
            Some(Ok(id)) => response == Ok::<_, InvokeError>((FunctionResourceId { id })),
            Some(Err(WasmFunctionCallError::Panicked)) => response == Err::<FunctionResourceId, _>(
                InvokeError::Panicked,
            ),
            Some(Err(WasmFunctionCallError::Crashed)) => response == Err::<FunctionResourceId, _>(
                InvokeError::Crashed,
            ),
        },
{
    match called {
        None => Err(InvokeError::Busy),
        Some(Ok(id)) => Ok(FunctionResourceId::new(id)),
        Some(Err(err)) => Err(InvokeError::from(err)),
    }
}

/// Why a background task failed.
#[derive(Clone, Copy, Debug, PartialEq, Eq, Structural)]
pub enum BackgroundTaskPollError {
    /// function returned incorrect abi response when polling background task
    AbiError,
    /// function panicked when polling background task
    FunctionPanicked,
    /// function crashed when polling background task
    FunctionCrashed,
}

impl From<WasmFunctionCallError> for BackgroundTaskPollError {
    fn from(err: WasmFunctionCallError) -> (out: Self) {
        match err {
            WasmFunctionCallError::Panicked => BackgroundTaskPollError::FunctionPanicked,
            WasmFunctionCallError::Crashed => BackgroundTaskPollError::FunctionCrashed,
        }
    }
}

impl vstd::std_specs::convert::FromSpecImpl<WasmFunctionCallError> for BackgroundTaskPollError {
    open spec fn obeys_from_spec() -> bool {
        true
    }

    open spec fn from_spec(err: WasmFunctionCallError) -> Self {
        match err {
            WasmFunctionCallError::Panicked => BackgroundTaskPollError::FunctionPanicked,
            WasmFunctionCallError::Crashed => BackgroundTaskPollError::FunctionCrashed,
        }
    }
}

/// What a function answers when it is asked about a background task.
pub fn background_task_poll(called: Result<u64, WasmFunctionCallError>) -> (task: Result<
    Poll<()>,
    BackgroundTaskPollError,
>)
    ensures
        match called {
            Ok(1) => task == Ok::<_, BackgroundTaskPollError>(Poll::<()>::Pending),
            Ok(0) => task == Ok::<_, BackgroundTaskPollError>(Poll::Ready(())),
            Ok(_) => task == Err::<Poll<()>, _>(BackgroundTaskPollError::AbiError),
            Err(WasmFunctionCallError::Panicked) => task == Err::<Poll<()>, _>(
                BackgroundTaskPollError::FunctionPanicked,
            ),
            Err(WasmFunctionCallError::Crashed) => task == Err::<Poll<()>, _>(
                BackgroundTaskPollError::FunctionCrashed,
            ),
        },
{
    match called {
        Ok(1) => Ok(Poll::Pending),
        Ok(0) => Ok(Poll::Ready(())),
        Ok(_) => Err(BackgroundTaskPollError::AbiError),
        Err(err) => Err(BackgroundTaskPollError::from(err)),
    }
}

/// Why a function gave no usable response.
#[derive(Clone, Copy, Debug, PartialEq, Eq, Structural)]
pub enum FunctionResponsePollError {
    /// internal runtime assertion error
    AssertionError,
    /// function returned incorrect abi response when polling background task
    AbiError,
    /// function panicked when polling function response
    FunctionPanicked,
    /// function crashed when polling function response
    FunctionCrashed,
    /// failed to deserialize function response
    FailedToDeserialize,
    /// host resource referenced by function is not found
    HostResourceNotFound,
    /// function returned invalid status code
    InvalidStatusCode,
    /// function returned invalid headers
    InvalidHeaders,
}

impl From<WasmFunctionCallError> for FunctionResponsePollError {
    fn from(err: WasmFunctionCallError) -> (out: Self) {
        match err {
            WasmFunctionCallError::Panicked => FunctionResponsePollError::FunctionPanicked,
            WasmFunctionCallError::Crashed => FunctionResponsePollError::FunctionCrashed,
        }
    }
}

impl vstd::std_specs::convert::FromSpecImpl<WasmFunctionCallError> for FunctionResponsePollError {
    open spec fn obeys_from_spec() -> bool {
        true
    }

    open spec fn from_spec(err: WasmFunctionCallError) -> Self {
        match err {
            WasmFunctionCallError::Panicked => FunctionResponsePollError::FunctionPanicked,
            WasmFunctionCallError::Crashed => FunctionResponsePollError::FunctionCrashed,
        }
    }
}

/// The record that a function writes when it is asked for its response.
#[derive(Clone, Copy, Debug, PartialEq, Eq, Structural)]
pub struct ResponsePollRecord {
    pub tag: u64,
    pub response_bytes_addr: u64,
    pub response_bytes_len: u64,
}

/// Where a response lies in the memory of the function.
#[derive(Clone, Copy, Debug, PartialEq, Eq, Structural)]
pub struct ResponseLocation {
    pub addr: u64,
    pub len: u64,
}

/// What a function answers when it is asked for its response: where the response lies, once it
/// is there. `called` is the record that it wrote, nothing in it where it could not be read.
pub fn function_response_poll(
    called: Result<Option<ResponsePollRecord>, WasmFunctionCallError>,
) -> (response: Poll<Result<ResponseLocation, FunctionResponsePollError>>)
    ensures
        match called {
            Err(WasmFunctionCallError::Panicked) => response == Poll::Ready(
                Err::<ResponseLocation, _>(FunctionResponsePollError::FunctionPanicked),
            ),
            Err(WasmFunctionCallError::Crashed) => response == Poll::Ready(
                Err::<ResponseLocation, _>(FunctionResponsePollError::FunctionCrashed),
            ),
            Ok(None) => response == Poll::Ready(
                Err::<ResponseLocation, _>(FunctionResponsePollError::AbiError),
            ),
            Ok(Some(record)) => if record.tag == 1 {
                response is Pending
            } else if record.tag == 0 {
                response == Poll::Ready(
                    Ok::<_, FunctionResponsePollError>(
                        (ResponseLocation {
                            addr: record.response_bytes_addr,
                            len: record.response_bytes_len,
                        }),
                    ),
                )
            } else {
                response == Poll::Ready(
                    Err::<ResponseLocation, _>(FunctionResponsePollError::AbiError),
                )
            },
        },
{
    match called {
        Err(err) => Poll::Ready(Err(FunctionResponsePollError::from(err))),
        Ok(None) => Poll::Ready(Err(FunctionResponsePollError::AbiError)),
        Ok(Some(record)) => match record.tag {
            1 => Poll::Pending,
            0 => Poll::Ready(
                Ok(
                    ResponseLocation {
                        addr: record.response_bytes_addr,
                        len: record.response_bytes_len,
                    },
                ),
            ),
            _ => Poll::Ready(Err(FunctionResponsePollError::AbiError)),
        },
    }
}

/// A header of a response; a part that could not be decoded is missing.
pub struct RawHeader {
    pub name: Option<Vec<u8>>,
    pub value: Option<Vec<u8>>,
}

/// Where the body of a response is.
#[derive(Clone, Copy, Debug, PartialEq, Eq, Structural)]
pub enum ResponseBody {
    FunctionResourceId(u64),
    HostResourceId(u64),
}

/// A response as a function has written it; a part that could not be decoded is missing.
pub struct ResponseMessage {
    pub status: u16,
    pub headers: Option<Vec<RawHeader>>,
    pub body: Option<ResponseBody>,
}

/// The body of a response; `B` is a body that the host holds.
pub enum ResponseBodySource<B> {
    Host(B),
    FunctionStream(u64),
}

/// The response of a function.
pub struct FunctionResponse<B> {
    pub status: u16,
    pub headers: http::HeaderMap<http::HeaderValue>,
    pub body: ResponseBodySource<B>,
}

/// Whether a header of a response is one.
pub open spec fn raw_header_valid(header: RawHeader) -> bool {
    &&& header.name is Some
    &&& header.value is Some
    &&& web::is_header_name(header.name->0@)
    &&& web::is_header_value(header.value->0@)
}

/// Whether all of a list of headers are.
pub open spec fn raw_headers_valid(headers: Seq<RawHeader>) -> bool {
    forall|i: int| 0 <= i < headers.len() ==> raw_header_valid(#[trigger] headers[i])
}

/// The headers that a list of them gives: of a name that comes again the last value stays.
pub open spec fn last_values(headers: Seq<RawHeader>) -> Map<Seq<u8>, Seq<Seq<u8>>>
    decreases headers.len(),
{
    if headers.len() == 0 {
        Map::empty()
    } else {
        last_values(headers.drop_last()).insert(
            web::header_key(headers.last().name->0@),
            seq![headers.last().value->0@],
        )
    }
}

/// Whether a map of headers takes a list of headers in any case.
pub open spec fn raw_headers_fit(headers: Seq<RawHeader>) -> bool {
    last_values(headers).dom().len() <= web::MAX_HEADER_NAMES
}

/// A list of no more headers than a map takes names fits into a map, whatever the names are.
pub proof fn short_raw_header_lists_fit(headers: Seq<RawHeader>)
    requires
        headers.len() <= web::MAX_HEADER_NAMES,
    ensures
        raw_headers_fit(headers),
{
    lemma_raw_names_are_headers(headers);
}

/// There are no more names than headers.
proof fn lemma_raw_names_are_headers(headers: Seq<RawHeader>)
    ensures
        last_values(headers).dom().finite(),
        last_values(headers).dom().len() <= headers.len(),
    decreases headers.len(),
{
    if headers.len() > 0 {
        lemma_raw_names_are_headers(headers.drop_last());
    }
}

proof fn lemma_raw_names_grow(headers: Seq<RawHeader>, i: int)
    requires
        0 <= i <= headers.len(),
    ensures
        last_values(headers).dom().finite(),
        last_values(headers.take(i)).dom().subset_of(last_values(headers).dom()),
        last_values(headers.take(i)).dom().len() <= last_values(headers).dom().len(),
    decreases headers.len(),
{
    if i == headers.len() {
        assert(headers.take(i) =~= headers);
        if headers.len() > 0 {
            lemma_raw_names_grow(headers.drop_last(), headers.len() - 1);
        }
    } else {
        assert(headers.drop_last().take(i) =~= headers.take(i));
        lemma_raw_names_grow(headers.drop_last(), i);
    }
    vstd::set_lib::lemma_len_subset(
        last_values(headers.take(i)).dom(),
        last_values(headers).dom(),
    );
}

/// Why a response cannot be passed on, if it cannot; the first reason in this order.
pub open spec fn response_error<B>(
    message: Option<ResponseMessage>,
    bodies: Map<u64, B>,
    instance_alive: bool,
) -> Option<FunctionResponsePollError> {
    match message {
        None => Some(FunctionResponsePollError::FailedToDeserialize),
        Some(m) => if m.body is None {
            Some(FunctionResponsePollError::FailedToDeserialize)
        } else if !web::is_status(m.status) {
            Some(FunctionResponsePollError::InvalidStatusCode)
        } else if m.headers is None || !raw_headers_valid(m.headers->0@) {
            Some(FunctionResponsePollError::InvalidHeaders)
        } else {
            match m.body->0 {
                ResponseBody::FunctionResourceId(_) => if instance_alive {
                    None
                } else {
                    Some(FunctionResponsePollError::AssertionError)
                },
                ResponseBody::HostResourceId(id) => if bodies.dom().contains(
                    resource::slot_key(id),
                ) {
                    None
                } else {
                    Some(FunctionResponsePollError::HostResourceNotFound)
                },
            }
        },
    }
}

/// The bodies that the host still holds once a response has been passed on.
pub open spec fn bodies_after_response<B>(
    message: Option<ResponseMessage>,
    bodies: Map<u64, B>,
    instance_alive: bool,
) -> Map<u64, B> {
    if response_error(message, bodies, instance_alive) is None {
        match message->0.body->0 {
            ResponseBody::HostResourceId(id) => bodies.remove(resource::slot_key(id)),
            _ => bodies,
        }
    } else {
        bodies
    }
}

fn check_headers(headers: &Vec<RawHeader>) -> (valid: bool)
    ensures
        valid == raw_headers_valid(headers@),
{
    let mut i: usize = 0;
    while i < headers.len()
        invariant
            i <= headers@.len(),
            forall|j: int| 0 <= j < i ==> raw_header_valid(#[trigger] headers@[j]),
        decreases headers@.len() - i,
    {
        let header = &headers[i];
        let valid = match (&header.name, &header.value) {
            (Some(name), Some(value)) => header_name_ok(name.as_slice()) && header_value_ok(
                value.as_slice(),
            ),
            _ => false,
        };
        assert(valid == raw_header_valid(headers@[i as int]));
        if !valid {
            return false;
        }
        i = i + 1;
    }
    true
}

fn response_headers(headers: &Vec<RawHeader>) -> (map: http::HeaderMap<http::HeaderValue>)
    requires
        raw_headers_valid(headers@),
        raw_headers_fit(headers@),
    ensures
        web::header_values(map) == last_values(headers@),
{
    let mut map = headers_new();
    let mut i: usize = 0;
    proof {
        assert(web::header_values(map) =~= last_values(headers@.take(0)));
    }
    while i < headers.len()
        invariant
            i <= headers@.len(),
            raw_headers_valid(headers@),
            raw_headers_fit(headers@),
            web::header_values(map) == last_values(headers@.take(i as int)),
        decreases headers@.len() - i,
    {
        let header = &headers[i];
        proof {
            let next = headers@.take(i + 1);
            assert(next.drop_last() =~= headers@.take(i as int));
            assert(next.last() == headers@[i as int]);
            assert(raw_header_valid(headers@[i as int]));
            lemma_raw_names_grow(headers@, i as int);
            lemma_raw_names_grow(headers@.take(i as int), i as int);
        }
        if let (Some(name), Some(value)) = (&header.name, &header.value) {
            headers_insert(&mut map, name.as_slice(), value.as_slice());
        }
        i = i + 1;
    }
    assert(headers@.take(headers@.len() as int) =~= headers@);
    map
}

/// The response that a function has written: `message` is nothing where it could not be decoded,
/// `http_bodies` are the bodies that the host holds for the function.
pub fn function_response<B>(
    message: Option<ResponseMessage>,
    http_bodies: &mut ResourceTable<B>,
    instance_alive: bool,
) -> (response: Result<FunctionResponse<B>, FunctionResponsePollError>)
    requires
        old(http_bodies).wf(),
        response_error(message, old(http_bodies)@, instance_alive) is None ==> raw_headers_fit(
            message->0.headers->0@,
        ),
    ensures
        final(http_bodies).wf(),
        final(http_bodies)@ == bodies_after_response(message, old(http_bodies)@, instance_alive),
        match response {
            Err(err) => response_error(message, old(http_bodies)@, instance_alive) == Some(err),
            Ok(r) => response_error(message, old(http_bodies)@, instance_alive) is None && r.status
                == message->0.status && web::header_values(r.headers) == last_values(
                message->0.headers->0@,
            ) && match message->0.body->0 {
                ResponseBody::FunctionResourceId(id) => r.body == ResponseBodySource::<
                    B,
                >::FunctionStream(id),
                ResponseBody::HostResourceId(id) => r.body == ResponseBodySource::Host(
                    old(http_bodies)@[resource::slot_key(id)],
                ),
            },
        },
{
    let message = match message {
        None => return Err(FunctionResponsePollError::FailedToDeserialize),
        Some(message) => message,
    };
    let body = match message.body {
        None => return Err(FunctionResponsePollError::FailedToDeserialize),
        Some(body) => body,
    };
    if !status_ok(message.status) {
        return Err(FunctionResponsePollError::InvalidStatusCode);
    }
    let headers = match message.headers {
        None => return Err(FunctionResponsePollError::InvalidHeaders),
        Some(headers) => headers,
    };
    if !check_headers(&headers) {
        return Err(FunctionResponsePollError::InvalidHeaders);
    }
    let body = match body {
        ResponseBody::FunctionResourceId(id) => if instance_alive {
            ResponseBodySource::FunctionStream(id)
        } else {
            return Err(FunctionResponsePollError::AssertionError);
        },
        ResponseBody::HostResourceId(id) => match http_bodies.remove(id) {
            Some(held) => ResponseBodySource::Host(held),
            None => {
                assert(old(http_bodies)@.remove(resource::slot_key(id)) =~= old(http_bodies)@);
                return Err(FunctionResponsePollError::HostResourceNotFound);
            },
        },
    };
    Ok(FunctionResponse { status: message.status, headers: response_headers(&headers), body })
}

/// What stands behind the names that a function uses.
pub struct InstanceBindings {
    pub env: Table<String, String>,
    pub sql: Table<String, SqlBindingConfig>,
    pub blob: Table<String, BlobBindingConfig>,
    pub kv: Table<String, KvBindingConfig>,
    pub functions: Table<String, FunctionBindingConfig>,
}

impl InstanceBindings {
    pub open spec fn wf(&self) -> bool {
        &&& self.env.wf()
        &&& self.sql.wf()
        &&& self.blob.wf()
        &&& self.kv.wf()
        &&& self.functions.wf()
    }

    pub fn new(
        env: Table<String, String>,
        sql: Table<String, SqlBindingConfig>,
        blob: Table<String, BlobBindingConfig>,
        kv: Table<String, KvBindingConfig>,
        functions: Table<String, FunctionBindingConfig>,
    ) -> (bindings: Self)
        ensures
            bindings.env == env,
            bindings.sql == sql,
            bindings.blob == blob,
            bindings.kv == kv,
            bindings.functions == functions,
    {
        InstanceBindings { env, sql, blob, kv, functions }
    }
}

/// How much memory an instance may take, where that is limited.
#[derive(Clone, Copy, Debug, PartialEq, Eq, Structural)]
pub struct StoreLimits {
    /// The bytes of a memory.
    pub memory_size: Option<usize>,
    /// How many memories there may be.
    pub memories: Option<usize>,
}

/// What the host keeps for an instance.
pub struct FunctionInstanceState {
    pub limits: StoreLimits,
    pub function_id: FunctionId,
    /// The background tasks that the function has spawned and the host has not taken yet.
    pub tasks_background: Vec<FunctionResourceId>,
    pub bindings: InstanceBindings,
    pub metrics: FunctionMetricsState,
}

impl FunctionInstanceState {
    /// The state of a fresh instance. Only one memory is allowed where its size is limited, so that
    /// the limit is one on all that the instance takes.
    pub fn new(
        limit_memory_bytes: Option<usize>,
        function_id: FunctionId,
        bindings: InstanceBindings,
    ) -> (state: Self)
        ensures
            state.limits == (match limit_memory_bytes {
                Some(bytes) => StoreLimits { memory_size: Some(bytes), memories: Some(1) },
                None => StoreLimits { memory_size: None, memories: None },
            }),
            state.function_id == function_id,
            state.tasks_background@.len() == 0,
            state.bindings == bindings,
            state.metrics.wf(),
            state.metrics.series().len() == 0,
            state.metrics.delta() == Map::<u64, u64>::empty(),
    {
        let limits = match limit_memory_bytes {
            Some(bytes) => StoreLimits { memory_size: Some(bytes), memories: Some(1) },
            None => StoreLimits { memory_size: None, memories: None },
        };
        FunctionInstanceState {
            limits,
            function_id,
            tasks_background: Vec::new(),
            bindings,
            metrics: FunctionMetricsState::new(),
        }
    }
}

proof fn lemma_last_values(headers: Seq<RawHeader>)
    ensures
        forall|k: Seq<u8>| #[trigger]
            last_values(headers).dom().contains(k) <==> exists|i: int|
                0 <= i < headers.len() && web::header_key((#[trigger] headers[i]).name->0@) == k,
        forall|i: int|
            #![trigger headers[i]]
            0 <= i < headers.len() && (forall|j: int|
                i < j < headers.len() ==> web::header_key((#[trigger] headers[j]).name->0@)
                    != web::header_key(headers[i].name->0@)) ==> last_values(
                headers,
            )[web::header_key(headers[i].name->0@)] == seq![headers[i].value->0@],
    decreases headers.len(),
{
    if headers.len() > 0 {
        let rest = headers.drop_last();
        lemma_last_values(rest);
        let whole = last_values(headers);
        let last = headers.len() - 1;
        assert forall|k: Seq<u8>| #[trigger] whole.dom().contains(k) <==> exists|i: int|
            0 <= i < headers.len() && web::header_key((#[trigger] headers[i]).name->0@) == k by {
            if whole.dom().contains(k) && k != web::header_key(headers[last].name->0@) {
                assert(last_values(rest).dom().contains(k));
                let i = choose|i: int|
                    0 <= i < rest.len() && web::header_key((#[trigger] rest[i]).name->0@) == k;
                assert(web::header_key(headers[i].name->0@) == k);
            }
            if exists|i: int|
                0 <= i < headers.len() && web::header_key((#[trigger] headers[i]).name->0@) == k {
                let i = choose|i: int|
                    0 <= i < headers.len() && web::header_key((#[trigger] headers[i]).name->0@) == k;
                if i < last {
                    assert(web::header_key(rest[i].name->0@) == k);
                    assert(last_values(rest).dom().contains(k));
                }
            }
        }
        assert forall|i: int|
            #![trigger headers[i]]
            0 <= i < headers.len() && (forall|j: int|
                i < j < headers.len() ==> web::header_key((#[trigger] headers[j]).name->0@)
                    != web::header_key(headers[i].name->0@)) implies whole[web::header_key(
            headers[i].name->0@,
        )] == seq![headers[i].value->0@] by {
            if i < last {
                assert(web::header_key(headers[last].name->0@) != web::header_key(
                    headers[i].name->0@,
                ));
                assert forall|j: int| i < j < rest.len() implies web::header_key(
                    (#[trigger] rest[j]).name->0@,
                ) != web::header_key(rest[i].name->0@) by {
                    assert(web::header_key(headers[j].name->0@) != web::header_key(
                        headers[i].name->0@,
                    ));
                }
                assert(rest[i] == headers[i]);
            }
        }
    }
}

/// A response is the one that the function gave: it has the status and the headers of the message, the
/// last value where a name stands twice, and the body that the message names, which the host then no
/// longer keeps where it kept it; the other bodies stay.
pub proof fn responses_are_those_that_were_given<B>(
    message: ResponseMessage,
    instance_alive: bool,
    response: FunctionResponse<B>,
    i: int,
    name: Seq<u8>,
    other: u64,
)
    ensures
        forall|bodies: &mut ResourceTable<B>| #[trigger]
            call_ensures(
                function_response::<B>,
                (Some(message), bodies, instance_alive),
                Ok::<_, FunctionResponsePollError>(response),
            ) ==> {
                &&& response.status == message.status
                &&& message.headers is Some
                &&& message.body is Some
                &&& web::header_values(response.headers).dom().contains(name) <==> exists|j: int|
                    0 <= j < message.headers->0@.len() && web::header_key(
                        (#[trigger] message.headers->0@[j]).name->0@,
                    ) == name
                &&& 0 <= i < message.headers->0@.len() && (forall|j: int|
                    i < j < message.headers->0@.len() ==> web::header_key(
                        (#[trigger] message.headers->0@[j]).name->0@,
                    ) != web::header_key(message.headers->0@[i].name->0@)) ==> web::header_values(
                    response.headers,
                )[web::header_key(message.headers->0@[i].name->0@)]
                    == seq![message.headers->0@[i].value->0@]
                &&& message.body->0 matches ResponseBody::FunctionResourceId(id) ==> response.body
                    == ResponseBodySource::<B>::FunctionStream(id) && final(bodies)@ == bodies@
                &&& message.body->0 matches ResponseBody::HostResourceId(id) ==> {
                    &&& bodies@.dom().contains(resource::slot_key(id))
                    &&& response.body == ResponseBodySource::Host(
                        bodies@[resource::slot_key(id)],
                    )
                    &&& !final(bodies)@.dom().contains(resource::slot_key(id))
                    &&& other != resource::slot_key(id) && bodies@.dom().contains(other)
                        ==> final(bodies)@.dom().contains(other) && final(bodies)@[other]
                        == bodies@[other]
                }
            },
{
    if message.headers is Some {
        lemma_last_values(message.headers->0@);
    }
}

/// Whether a header of a response is one: it has a name and a value, and both are such as headers have.
pub open spec fn is_header(header: RawHeader) -> bool {
    match (header.name, header.value) {
        (Some(name), Some(value)) => web::is_header_name(name@) && web::is_header_value(value@),
        _ => false,
    }
}

/// Whether a response is refused for what is wrong with it, the first of these: a message or a body that
/// is missing, a status that is none, a header that is none, and a body that is no longer there; and
/// whether it is not refused else.
pub open spec fn is_refused_rightly<B>(
    message: Option<ResponseMessage>,
    bodies: Map<u64, B>,
    instance_alive: bool,
    refusal: Option<FunctionResponsePollError>,
) -> bool {
    let whole = message is Some && message->0.body is Some;
    let status = 100 <= message->0.status < 1000;
    let headers = message->0.headers is Some && forall|i: int|
        0 <= i < message->0.headers->0@.len() ==> is_header(#[trigger] message->0.headers->0@[i]);
    let there = match message->0.body->0 {
        ResponseBody::FunctionResourceId(_) => instance_alive,
        ResponseBody::HostResourceId(id) => bodies.dom().contains(resource::slot_key(id)),
    };
    let sound = whole && status && headers;
    &&& refusal == Some(FunctionResponsePollError::FailedToDeserialize) <==> !whole
    &&& refusal == Some(FunctionResponsePollError::InvalidStatusCode) <==> whole && !status
    &&& refusal == Some(FunctionResponsePollError::InvalidHeaders) <==> whole && status && !headers
    &&& refusal == Some(FunctionResponsePollError::HostResourceNotFound) <==> sound && !there
        && message->0.body->0 is HostResourceId
    &&& refusal == Some(FunctionResponsePollError::AssertionError) <==> sound && !there
        && message->0.body->0 is FunctionResourceId
    &&& refusal is None <==> sound && there
}

proof fn lemma_refused<B>(
    message: Option<ResponseMessage>,
    bodies: Map<u64, B>,
    instance_alive: bool,
)
    ensures
        is_refused_rightly(
            message,
            bodies,
            instance_alive,
            response_error(message, bodies, instance_alive),
        ),
{
    if message is Some && message->0.headers is Some {
        let headers = message->0.headers->0@;
        assert(raw_headers_valid(headers) <==> forall|i: int|
            0 <= i < headers.len() ==> is_header(#[trigger] headers[i])) by {
            if raw_headers_valid(headers) {
                assert forall|i: int| 0 <= i < headers.len() implies is_header(
                    #[trigger] headers[i],
                ) by {
                    assert(raw_header_valid(headers[i]));
                }
            }
        }
    }
}

/// A response is refused for what is wrong with it, and is not refused where nothing is; where it is,
/// all bodies stay.
pub proof fn refused_responses_say_what_is_wrong<B>(
    message: Option<ResponseMessage>,
    instance_alive: bool,
    response: Result<FunctionResponse<B>, FunctionResponsePollError>,
)
    ensures
        forall|bodies: &mut ResourceTable<B>| #[trigger]
            call_ensures(function_response::<B>, (message, bodies, instance_alive), response) ==> (
            response is Err ==> final(bodies)@ == bodies@) && is_refused_rightly(
                message,
                bodies@,
                instance_alive,
                match response {
                    Ok(_) => None,
                    Err(err) => Some(err),
                },
            ),
{
    assert forall|bodies: &mut ResourceTable<B>| #[trigger]
        call_ensures(function_response::<B>, (message, bodies, instance_alive), response) implies (
    response is Err ==> final(bodies)@ == bodies@) && is_refused_rightly(
        message,
        bodies@,
        instance_alive,
        match response {
            Ok(_) => None,
            Err(err) => Some(err),
        },
    ) by {
        lemma_refused(message, bodies@, instance_alive);
    }
}

/// Whether code that must not be reached was reached is what every call of the function tells as a
/// panic, and as a crash otherwise.
pub proof fn panics_are_told_from_crashes(
    unreachable_code_reached: bool,
    err: WasmFunctionCallError,
    instance_alive: bool,
    frame: Poll<Result<Option<FunctionFrame>, HttpBodyFramePollError>>,
    trigger: Result<FunctionResourceId, InvokeError>,
    task: Result<Poll<()>, BackgroundTaskPollError>,
    response: Poll<Result<ResponseLocation, FunctionResponsePollError>>,
)
    requires
        call_ensures(call_error, (unreachable_code_reached,), err),
        call_ensures(
            http_body_frame_poll,
            (Err::<Option<FramePollRecord>, _>(err), instance_alive),
            frame,
        ),
        call_ensures(invoke_http_trigger, (Some(Err::<u64, _>(err)),), trigger),
        call_ensures(background_task_poll, (Err::<u64, _>(err),), task),
        call_ensures(
            function_response_poll,
            (Err::<Option<ResponsePollRecord>, _>(err),),
            response,
        ),
    ensures
        frame == Poll::Ready(
            Err::<Option<FunctionFrame>, _>(
                if unreachable_code_reached {
                    HttpBodyFramePollError::FunctionPanicked
                } else {
                    HttpBodyFramePollError::FunctionCrashed
                },
            ),
        ),
        trigger == Err::<FunctionResourceId, _>(
            if unreachable_code_reached {
                InvokeError::Panicked
            } else {
                InvokeError::Crashed
            },
        ),
        task == Err::<Poll<()>, _>(
            if unreachable_code_reached {
                BackgroundTaskPollError::FunctionPanicked
            } else {
                BackgroundTaskPollError::FunctionCrashed
            },
        ),
        response == Poll::Ready(
            Err::<ResponseLocation, _>(
                if unreachable_code_reached {
                    FunctionResponsePollError::FunctionPanicked
                } else {
                    FunctionResponsePollError::FunctionCrashed
                },
            ),
        ),
{
}

/// What a function hands over lies where its record says: a frame under its number and at its place in
/// the memory, and a response at its place.
pub proof fn records_point_to_what_is_handed_over(
    polled: FramePollRecord,
    frame: Poll<Result<Option<FunctionFrame>, HttpBodyFramePollError>>,
    answered: ResponsePollRecord,
    response: Poll<Result<ResponseLocation, FunctionResponsePollError>>,
    view: &[u8],
    bytes: &[u8],
)
    requires
        call_ensures(
            http_body_frame_poll,
            (Ok::<_, WasmFunctionCallError>(Some(polled)), true),
            frame,
        ),
        call_ensures(
            function_response_poll,
            (Ok::<_, WasmFunctionCallError>(Some(answered)),),
            response,
        ),
    ensures
        frame matches Poll::Ready(Ok(Some(frame))) ==> frame.resource_id.id
            == polled.frame_bytes_resource_id && frame.ptr == polled.frame_bytes_addr && frame.len
            == polled.frame_bytes_len && (polled.frame_bytes_addr + polled.frame_bytes_len
            <= view@.len() && call_ensures(FunctionFrame::as_ref, (&frame, view), bytes)
            ==> bytes@.len() == polled.frame_bytes_len && forall|i: int|
            0 <= i < bytes@.len() ==> #[trigger] bytes@[i] == view@[polled.frame_bytes_addr + i]),
        polled.tag == 1 <==> (frame matches Poll::Ready(Ok(Some(_)))),
        polled.tag == 0 <==> (frame matches Poll::Ready(Ok(None))),
        polled.tag == 2 <==> frame is Pending,
        response matches Poll::Ready(Ok(at)) ==> at.addr == answered.response_bytes_addr && at.len
            == answered.response_bytes_len,
        answered.tag == 0 <==> (response matches Poll::Ready(Ok(_))),
        answered.tag == 1 <==> response is Pending,
{
}

/// An instance is accepted exactly where it was made, has a memory and has every export.
pub proof fn instances_are_checked(
    instantiated: bool,
    has_memory: bool,
    exports: &Vec<bool>,
    checked: Result<(), FunctionInstanceInitError>,
)
    requires
        call_ensures(check_instance, (instantiated, has_memory, exports), checked),
    ensures
        checked is Ok <==> instantiated && has_memory && !exports@.contains(false),
        checked matches Err(FunctionInstanceInitError::MissingMemory) ==> instantiated
            && !has_memory,
        checked matches Err(FunctionInstanceInitError::MissingExport) ==> instantiated
            && has_memory,
        (checked matches Err(FunctionInstanceInitError::UnknownError)) <==> !instantiated,
        !(checked matches Err(FunctionInstanceInitError::InternalRuntimeAssertionError)),
{
}

/// A poll that is under way is kept until it is answered, a new one is begun exactly where none is, and
/// what is answered is passed on, a failure as what it was.
pub proof fn polls_under_way_are_kept<C, T>(
    future: FunctionFramePollFuture<C>,
    needed: bool,
    call: C,
    answer: Poll<Poll<Result<T, HttpBodyFramePollError>>>,
    outcome: Poll<Result<T, FunctionFramePollError>>,
)
    requires
        call_ensures(FunctionFramePollFuture::<C>::needs_call, (&future,), needed),
    ensures
        needed <==> future.inner_poll_future is None,
        forall|f: &mut FunctionFramePollFuture<C>| #[trigger]
            call_ensures(FunctionFramePollFuture::<C>::start_call, (f, call), ()) ==> {
                &&& f.inner_poll_future is Some ==> final(f).inner_poll_future
                    == f.inner_poll_future
                &&& f.inner_poll_future is None ==> final(f).inner_poll_future == Some(call)
            },
        forall|f: &mut FunctionFramePollFuture<C>| #[trigger]
            call_ensures(FunctionFramePollFuture::<C>::poll::<T>, (f, answer), outcome) ==> {
                &&& answer is Pending ==> final(f).inner_poll_future == f.inner_poll_future
                &&& answer is Ready ==> final(f).inner_poll_future is None
                &&& outcome is Pending <==> answer is Pending || answer->Ready_0 is Pending
                &&& answer matches Poll::Ready(Poll::Ready(Ok(value))) ==> outcome == Poll::Ready(
                    Ok::<T, FunctionFramePollError>(value),
                )
                &&& answer matches Poll::Ready(Poll::Ready(Err(err))) ==> {
                    &&& outcome is Ready && outcome->Ready_0 is Err
                    &&& err is AbiError <==> outcome->Ready_0->Err_0 is InternalSdkError
                    &&& err is AssertionError <==> outcome->Ready_0->Err_0 is AssertionError
                    &&& err is FunctionPanicked <==> outcome->Ready_0->Err_0 is FunctionPanicked
                    &&& err is FunctionCrashed <==> outcome->Ready_0->Err_0 is FunctionCrashed
                }
            },
{
}

/// An instance has what it was made with, each in its own place, and a limit on its memory exactly where
/// one was given.
pub proof fn instances_have_what_they_were_given(
    limit: Option<usize>,
    function_id: FunctionId,
    bindings: InstanceBindings,
    state: FunctionInstanceState,
)
    requires
        call_ensures(FunctionInstanceState::new, (limit, function_id, bindings), state),
    ensures
        state.function_id@ == function_id@,
        state.bindings == bindings,
        state.limits.memory_size == limit,
        state.limits.memories is Some <==> limit is Some,
        limit is Some ==> state.limits.memories == Some(1usize),
        state.tasks_background@.len() == 0,
{
}

} // verus!
