//! Calls through the exports of a function: one export for each handler, and numbers for answers.
use vstd::prelude::*;

use crate::effects::logs;
use crate::effects::logs::{
    LogEventType, LogLevel, LogMessage, LogMessageEvent, LogSource, LogSourceView,
};
use crate::effects::sql;
use crate::effects::sql::{QueryResult, SqlError};
use crate::function::id::FunctionId;
use crate::poll::Poll;
use crate::runtime::engine::ExecutionContext;
use crate::runtime::error;
use crate::runtime::error::FxRuntimeError;
use crate::runtime::memory;
use crate::runtime::memory::read_memory_owned;
use crate::streams::{FxReadableStream, HostPoolIndex, StreamPoll, StreamsPool};
use crate::table::Table;
use crate::text;
use crate::text::{decimal_text, decode_text, owned};

verus! {

/// The export of a handler.
pub fn handler_export(function_name: &str) -> (export: String)
    ensures
        export@ == "_fx_rpc_"@ + function_name@,
{
    let mut export = owned("_fx_rpc_");
    export.push_str(function_name);
    export
}

/// Why there is no export to call.
#[derive(Clone, Copy, Debug, PartialEq, Eq, Structural)]
pub enum ExportFault {
    Missing,
    IncompatibleType,
}

impl From<ExportFault> for FxRuntimeError {
    fn from(fault: ExportFault) -> (err: Self) {
        match fault {
            ExportFault::Missing => FxRuntimeError::RpcHandlerNotDefined,
            ExportFault::IncompatibleType => FxRuntimeError::RpcHandlerIncompatibleType,
        }
    }
}

impl vstd::std_specs::convert::FromSpecImpl<ExportFault> for FxRuntimeError {
    open spec fn obeys_from_spec() -> bool {
        true
    }

    open spec fn from_spec(fault: ExportFault) -> Self {
        match fault {
            ExportFault::Missing => FxRuntimeError::RpcHandlerNotDefined,
            ExportFault::IncompatibleType => FxRuntimeError::RpcHandlerIncompatibleType,
        }
    }
}

/// A call that runs in the function.
#[derive(Debug)]
pub struct RpcCall {
    pub function_id: FunctionId,
    pub function_name: String,
    pub argument: Vec<u8>,
    /// The number of the call in the function, while it is not done.
    pub rpc_future_index: Option<i64>,
}

/// What is done for a call.
#[derive(Debug)]
pub struct RpcWork {
    /// What is dropped in the function first, in this order.
    pub drop_futures: Vec<i64>,
    pub step: RpcStep,
}

/// The next step of a call.
#[derive(Debug)]
pub enum RpcStep {
    /// The argument is written and the export of the handler called.
    Call { export: String },
    /// The call was made before and is polled.
    Poll { index: i64 },
}

/// Whether an error says that the function failed, in the given words and with the given fault.
pub open spec fn is_internal_error(err: FxRuntimeError, words: Seq<char>, fault: Seq<char>) -> bool {
    err matches FxRuntimeError::ServiceInternalError { reason } && reason@ == words + fault
}

fn internal_error(words: &str, fault: String) -> (err: FxRuntimeError)
    ensures
        is_internal_error(err, words@, fault@),
{
    let mut reason = owned(words);
    reason.push_str(fault.as_str());
    FxRuntimeError::ServiceInternalError { reason }
}

impl RpcCall {
    pub fn new(function_id: FunctionId, function_name: String, argument: Vec<u8>) -> (call: Self)
        ensures
            call.function_id == function_id,
            call.function_name == function_name,
            call.argument == argument,
            call.rpc_future_index is None,
    {
        RpcCall { function_id, function_name, argument, rpc_future_index: None }
    }

    /// What a poll does first; `locked` says whether the context could be taken, `can_drop` whether
    /// the function can drop anything.
    pub fn poll<I>(
        &self,
        context: &mut ExecutionContext<I>,
        locked: bool,
        can_drop: bool,
    ) -> (work: Result<RpcWork, FxRuntimeError>)
        ensures
            match work {
                Err(err) => !locked && *final(context) == *old(context) && (err
                    matches FxRuntimeError::ExecutionContextRuntimeError { reason } && reason@
                    == "failed to lock ctx.store when polling FunctionRuntimeFuture."@),
                Ok(work) => {
                    &&& locked
                    &&& work.drop_futures@ == (if can_drop {
                        old(context).futures_to_drop@
                    } else {
                        Seq::<i64>::empty()
                    })
                    &&& final(context).futures_to_drop@ == (if can_drop {
                        Seq::<i64>::empty()
                    } else {
                        old(context).futures_to_drop@
                    })
                    &&& final(context).needs_recreate == old(context).needs_recreate
                    &&& final(context).streams_to_drop == old(context).streams_to_drop
                    &&& final(context).instance == old(context).instance
                    &&& final(context).function_id == old(context).function_id
                    &&& final(context).compiler_metadata == old(context).compiler_metadata
                    &&& match (self.rpc_future_index, work.step) {
                        (Some(i), RpcStep::Poll { index }) => index == i,
                        (None, RpcStep::Call { export }) => export@ == "_fx_rpc_"@
                            + self.function_name@,
                        _ => false,
                    }
                },
            },
    {
        if !locked {
            return Err(
                FxRuntimeError::ExecutionContextRuntimeError {
                    reason: owned("failed to lock ctx.store when polling FunctionRuntimeFuture."),
                },
            );
        }
        let mut drop_futures: Vec<i64> = Vec::new();
        if can_drop {
            std::mem::swap(&mut drop_futures, &mut context.futures_to_drop);
        }
        let step = match self.rpc_future_index {
            Some(index) => RpcStep::Poll { index },
            None => RpcStep::Call { export: handler_export(self.function_name.as_str()) },
        };
        Ok(RpcWork { drop_futures, step })
    }

    /// What comes of the call of the handler: the number that is polled next, or why the call has
    /// failed. `execution_error` is what the function itself reported, which goes before how the
    /// call came back. Whatever failed has the context created anew.
    pub fn called<I>(
        &self,
        context: &mut ExecutionContext<I>,
        execution_error: Option<String>,
        returned: Result<i64, String>,
    ) -> (next: Result<i64, FxRuntimeError>)
        ensures
            match (execution_error, returned, next) {
                (Some(error), _, Err(err)) => err == (FxRuntimeError::ServiceExecutionError {
                    error,
                }),
                (None, Err(fault), Err(err)) => is_internal_error(
                    err,
                    "rpc call failed: "@,
                    fault@,
                ),
                (None, Ok(index), Ok(i)) => i == index,
                _ => false,
            },
            *final(context) == (ExecutionContext {
                needs_recreate: old(context).needs_recreate || next is Err,
                ..*old(context)
            }),
    {
        if let Some(error) = execution_error {
            context.needs_recreate = true;
            return Err(FxRuntimeError::ServiceExecutionError { error });
        }
        match returned {
            Ok(index) => Ok(index),
            Err(fault) => {
                context.needs_recreate = true;
                Err(internal_error("rpc call failed: ", fault))
            },
        }
    }

    /// What comes of the first poll. `ready` is what the function returned, where 1 says that it is
    /// done, and `response` is what it has answered. A poll that failed has the context created
    /// anew.
    pub fn first_polled<I>(
        &mut self,
        context: &mut ExecutionContext<I>,
        index: i64,
        ready: Result<i64, String>,
        response: Option<Vec<u8>>,
    ) -> (answer: Poll<Result<Vec<u8>, FxRuntimeError>>)
        requires
            ready == Ok::<i64, String>(1) ==> response is Some,
        ensures
            match (ready, answer) {
                (Err(fault), Poll::Ready(Err(err))) => is_internal_error(
                    err,
                    "rpc call failed: "@,
                    fault@,
                ),
                (Ok(1), Poll::Ready(Ok(bytes))) => Some(bytes) == response,
                (Ok(code), Poll::Pending) => code != 1,
                _ => false,
            },
            *final(self) == (RpcCall {
                rpc_future_index: if answer is Pending {
                    Some(index)
                } else {
                    old(self).rpc_future_index
                },
                ..*old(self)
            }),
            *final(context) == (ExecutionContext {
                needs_recreate: old(context).needs_recreate || ready is Err,
                ..*old(context)
            }),
    {
        match ready {
            Err(fault) => {
                context.needs_recreate = true;
                Poll::Ready(Err(internal_error("rpc call failed: ", fault)))
            },
            Ok(code) => {
                if code == 1 {
                    if let Some(bytes) = response {
                        return Poll::Ready(Ok(bytes));
                    }
                }
                self.rpc_future_index = Some(index);
                Poll::Pending
            },
        }
    }

    /// What comes of a later poll.
    pub fn polled(&mut self, ready: Result<i64, String>, response: Option<Vec<u8>>) -> (answer: Poll<
        Result<Vec<u8>, FxRuntimeError>,
    >)
        requires
            ready == Ok::<i64, String>(1) ==> response is Some,
        ensures
            match (ready, answer) {
                (Err(fault), Poll::Ready(Err(err))) => is_internal_error(
                    err,
                    "failed when polling future: "@,
                    fault@,
                ),
                (Ok(1), Poll::Ready(Ok(bytes))) => Some(bytes) == response,
                (Ok(code), Poll::Pending) => code != 1,
                _ => false,
            },
            *final(self) == (RpcCall {
                rpc_future_index: if ready == Ok::<i64, String>(1) {
                    None
                } else {
                    old(self).rpc_future_index
                },
                ..*old(self)
            }),
    {
        match ready {
            Err(fault) => Poll::Ready(Err(internal_error("failed when polling future: ", fault))),
            Ok(code) => {
                if code == 1 {
                    self.rpc_future_index = None;
                    if let Some(bytes) = response {
                        return Poll::Ready(Ok(bytes));
                    }
                }
                Poll::Pending
            },
        }
    }

    /// Has the function drop a call that is given up before it is done.
    pub fn dropped<I>(&self, context: &mut ExecutionContext<I>)
        ensures
            final(context).futures_to_drop@ == (match self.rpc_future_index {
                Some(index) => old(context).futures_to_drop@.push(index),
                None => old(context).futures_to_drop@,
            }),
            final(context).streams_to_drop == old(context).streams_to_drop,
            final(context).needs_recreate == old(context).needs_recreate,
            final(context).instance == old(context).instance,
            final(context).function_id == old(context).function_id,
            final(context).compiler_metadata == old(context).compiler_metadata,
    {
        if let Some(index) = self.rpc_future_index {
            context.futures_to_drop.push(index);
        }
    }
}

/// The decimal digits of a number, with its sign.
pub open spec fn signed_decimal(n: int) -> Seq<char> {
    if n < 0 {
        "-"@ + text::decimal((-n) as nat)
    } else {
        text::decimal(n as nat)
    }
}

fn signed_decimal_text(n: i64) -> (digits: String)
    ensures
        digits@ == signed_decimal(n as int),
{
    if n < 0 {
        let size: u64 = if n == i64::MIN {
            0x8000_0000_0000_0000
        } else {
            (-n) as u64
        };
        let mut digits = owned("-");
        let tail = decimal_text(size);
        digits.push_str(tail.as_str());
        digits
    } else {
        decimal_text(n as u64)
    }
}

/// What the number that a function returned says of its stream, with what it has answered; nothing
/// where it is none of the numbers.
pub open spec fn stream_heard(code: i64, response: Option<Vec<u8>>) -> Option<
    Poll<Option<Vec<u8>>>,
> {
    if code == 0 {
        Some(Poll::Pending)
    } else if code == 1 && response is Some {
        Some(Poll::Ready(response))
    } else if code == 2 {
        Some(Poll::Ready(None))
    } else {
        None
    }
}

/// The next item of a stream of a function, from the number that the function returned: 0 while
/// there is none, 1 with an item, 2 at the end.
pub fn stream_poll_next(code: i64, response: Option<Vec<u8>>) -> (poll: Poll<
    Option<Result<Vec<u8>, FxRuntimeError>>,
>)
    requires
        code == 1 ==> response is Some,
    ensures
        match (stream_heard(code, response), poll) {
            (Some(Poll::Pending), Poll::Pending) => true,
            (Some(Poll::Ready(Some(item))), Poll::Ready(Some(Ok(i)))) => i == item,
            (Some(Poll::Ready(None)), Poll::Ready(None)) => true,
            (None, Poll::Ready(Some(Err(FxRuntimeError::StreamingError { reason })))) => reason@
                == "unexpected repsonse code from _fx_stream_next: "@ + signed_decimal(code as int),
            _ => false,
        },
{
    if code == 0 {
        return Poll::Pending;
    }
    if code == 1 {
        if let Some(item) = response {
            return Poll::Ready(Some(Ok(item)));
        }
    }
    if code == 2 {
        return Poll::Ready(None);
    }
    let mut reason = owned("unexpected repsonse code from _fx_stream_next: ");
    let digits = signed_decimal_text(code);
    reason.push_str(digits.as_str());
    Poll::Ready(Some(Err(FxRuntimeError::StreamingError { reason })))
}

/// The text at an address of a memory.
pub open spec fn text_in(memory: Seq<u8>, at: (i64, i64)) -> Option<Seq<char>> {
    if memory::in_memory(memory, at.0, at.1 as int) {
        text::utf8_text(memory.subrange(at.0 as int, at.0 + at.1))
    } else {
        None
    }
}

fn read_text(memory: &[u8], at: (i64, i64)) -> (text: String)
    requires
        text_in(memory@, at) is Some,
    ensures
        Some(text@) == text_in(memory@, at),
{
    let bytes = read_memory_owned(memory, at.0, at.1);
    match decode_text(bytes.as_slice()) {
        Some(text) => owned(text),
        None => String::new(),
    }
}

/// The call of another function that a function asks for: the name of the other, that of its
/// handler and the argument, each with its address and length in the memory.
pub fn api_rpc(
    memory: &[u8],
    service_name: (i64, i64),
    function_name: (i64, i64),
    argument: (i64, i64),
) -> (call: RpcCall)
    requires
        text_in(memory@, service_name) is Some,
        text_in(memory@, function_name) is Some,
        memory::in_memory(memory@, argument.0, argument.1 as int),
    ensures
        Some(call.function_id@) == text_in(memory@, service_name),
        Some(call.function_name@) == text_in(memory@, function_name),
        call.argument@ == memory@.subrange(argument.0 as int, argument.0 + argument.1),
        call.rpc_future_index is None,
{
    RpcCall::new(
        FunctionId::new(read_text(memory, service_name)),
        read_text(memory, function_name),
        read_memory_owned(memory, argument.0, argument.1),
    )
}

/// What a function that called another is told in the end.
pub fn rpc_outcome(result: Result<Vec<u8>, FxRuntimeError>) -> (told: Result<
    Vec<u8>,
    FxFutureError,
>)
    ensures
        match (result, told) {
            (Ok(response), Ok(r)) => r == response,
            (Err(err), Err(FxFutureError::RpcError { reason })) => reason@
                == error::runtime_error_message(err),
            _ => false,
        },
{
    match result {
        Ok(response) => Ok(response),
        Err(err) => Err(FxFutureError::RpcError { reason: err.message() }),
    }
}

/// What a function that asks for an unknown storage is told.
pub const STORAGE_NOT_BOUND: i64 = 1;

/// The read of a key that a function asks for, as the storage and the key; the code that the
/// function is told where it has no such storage.
pub fn api_kv_get<S>(
    memory: &[u8],
    storage: &Table<String, S>,
    binding: (i64, i64),
    key: (i64, i64),
) -> (read: Result<(String, Vec<u8>), i64>)
    requires
        storage.wf(),
        text_in(memory@, binding) is Some,
        storage@.dom().contains(text_in(memory@, binding)->0) ==> memory::in_memory(
            memory@,
            key.0,
            key.1 as int,
        ),
    ensures
        match read {
            Ok((name, k)) => storage@.dom().contains(name@) && Some(name@) == text_in(
                memory@,
                binding,
            ) && k@ == memory@.subrange(key.0 as int, key.0 + key.1),
            Err(code) => code == STORAGE_NOT_BOUND && !storage@.dom().contains(
                text_in(memory@, binding)->0,
            ),
        },
{
    let name = read_text(memory, binding);
    if !storage.contains_key(&name) {
        return Err(STORAGE_NOT_BOUND);
    }
    Ok((name, read_memory_owned(memory, key.0, key.1)))
}

/// What a function is told of the value of a key: 0 and the value, 2 where the key has none.
pub fn kv_get_code(value: Option<Vec<u8>>) -> (told: (i64, Option<Vec<u8>>))
    ensures
        told == (match value {
            Some(v) => (0i64, Some(v)),
            None => (2, None::<Vec<u8>>),
        }),
{
    match value {
        Some(v) => (0, Some(v)),
        None => (2, None),
    }
}

/// The key that a function sets, as the storage, the key and the value; the code that the function
/// is told where it has no such storage. It is told 0 once the key is set.
pub fn api_kv_set<S>(
    memory: &[u8],
    storage: &Table<String, S>,
    binding: (i64, i64),
    key: (i64, i64),
    value: (i64, i64),
) -> (write: Result<(String, Vec<u8>, Vec<u8>), i64>)
    requires
        storage.wf(),
        text_in(memory@, binding) is Some,
        storage@.dom().contains(text_in(memory@, binding)->0) ==> memory::in_memory(
            memory@,
            key.0,
            key.1 as int,
        ) && memory::in_memory(memory@, value.0, value.1 as int),
    ensures
        match write {
            Ok((name, k, v)) => storage@.dom().contains(name@) && Some(name@) == text_in(
                memory@,
                binding,
            ) && k@ == memory@.subrange(key.0 as int, key.0 + key.1) && v@ == memory@.subrange(
                value.0 as int,
                value.0 + value.1,
            ),
            Err(code) => code == STORAGE_NOT_BOUND && !storage@.dom().contains(
                text_in(memory@, binding)->0,
            ),
        },
{
    let name = read_text(memory, binding);
    if !storage.contains_key(&name) {
        return Err(STORAGE_NOT_BOUND);
    }
    Ok(
        (
            name,
            read_memory_owned(memory, key.0, key.1),
            read_memory_owned(memory, value.0, value.1),
        ),
    )
}

/// What a function is told of something that was put into a pool: its number, or -1 where the pool
/// did not take it.
pub fn pool_code<E>(pushed: Result<HostPoolIndex, E>) -> (code: i64)
    ensures
        code == (match pushed {
            Ok(index) => index.0 as i64,
            Err(_) => -1i64,
        }),
{
    match pushed {
        Ok(index) => index.0 as i64,
        Err(_) => -1,
    }
}

/// What a function is told of a future: 0 while it is not done, 1 and what it has given.
pub fn future_poll_code<T>(poll: Poll<T>) -> (told: (i64, Option<T>))
    ensures
        told == (match poll {
            Poll::Pending => (0i64, None::<T>),
            Poll::Ready(given) => (1, Some(given)),
        }),
{
    match poll {
        Poll::Pending => (0, None),
        Poll::Ready(given) => (1, Some(given)),
    }
}

/// What is told of a stream in a number: 0 while there is no item, 1 and the item, 2 at the end.
pub open spec fn stream_told<T>(poll: Poll<Option<T>>) -> (i64, Option<T>) {
    match poll {
        Poll::Pending => (0, None),
        Poll::Ready(Some(item)) => (1, Some(item)),
        Poll::Ready(None) => (2, None),
    }
}

/// What a function is told of a stream of the host.
pub fn stream_poll_code<T>(poll: Poll<Option<T>>) -> (told: (i64, Option<T>))
    ensures
        told == stream_told(poll),
{
    match poll {
        Poll::Pending => (0, None),
        Poll::Ready(Some(item)) => (1, Some(item)),
        Poll::Ready(None) => (2, None),
    }
}

/// A stream that one side tells the other of in a number is the same stream to the other: the host
/// reads the codes of a function as the function reads those of the host.
pub proof fn streams_pass_unchanged(poll: Poll<Option<Vec<u8>>>)
    ensures
        ({
            let told = stream_told(poll);
            stream_heard(told.0, told.1) == Some(poll)
        }),
{
}

/// Why a stream of a function was not taken, or not read.
#[derive(Debug)]
pub enum FxStreamError {
    PushFailed { reason: String },
    PollFailed { reason: String },
}

/// What a function is told of a stream that it hands to the host: its number.
pub fn api_stream_export(pushed: Result<HostPoolIndex, FxRuntimeError>) -> (told: Result<
    i64,
    FxStreamError,
>)
    ensures
        match (pushed, told) {
            (Ok(index), Ok(i)) => i == index.0 as i64,
            (Err(err), Err(FxStreamError::PushFailed { reason })) => reason@
                == error::runtime_error_message(err),
            _ => false,
        },
{
    match pushed {
        Ok(index) => Ok(index.0 as i64),
        Err(err) => Err(FxStreamError::PushFailed { reason: err.message() }),
    }
}

/// What a function is told of the next item of a stream in the pool.
pub fn api_stream_poll_next(poll: StreamPoll) -> (told: (
    i64,
    Option<Result<Vec<u8>, FxStreamError>>,
))
    ensures
        match poll {
            Poll::Pending => told == (0i64, None::<Result<Vec<u8>, FxStreamError>>),
            Poll::Ready(None) => told == (2i64, None::<Result<Vec<u8>, FxStreamError>>),
            Poll::Ready(Some(Ok(item))) => told == (1i64, Some(Ok::<_, FxStreamError>(item))),
            Poll::Ready(Some(Err(err))) => told.0 == 1 && (told.1
                matches Some(Err(FxStreamError::PollFailed { reason })) && reason@
                == error::runtime_error_message(err)),
        },
{
    match poll {
        Poll::Pending => stream_poll_code(Poll::Pending),
        Poll::Ready(None) => stream_poll_code(Poll::Ready(None)),
        Poll::Ready(Some(Ok(item))) => stream_poll_code(Poll::Ready(Some(Ok(item)))),
        Poll::Ready(Some(Err(err))) => stream_poll_code(
            Poll::Ready(Some(Err(FxStreamError::PollFailed { reason: err.message() }))),
        ),
    }
}

/// Why something that a function waits for failed.
#[derive(Debug)]
pub enum FxFutureError {
    RpcError { reason: String },
    FetchError { reason: String },
    SerializationError { reason: String },
}

/// How the fault of a pool of streams is written out, with its name and its fields.
pub const LOCK_POISONED_FAULT: &'static str =
    "StreamingError { reason: \"lock is poisoned: PoisonError { .. }\" }";

/// The body of a request of a function that may make requests: none, or the stream that it names,
/// taken out of the pool. `request` is the number of that stream, or why the request could not be
/// read.
pub fn api_fetch<S>(
    allow_fetch: bool,
    request: Result<Option<i64>, String>,
    streams: &mut StreamsPool<S>,
) -> (body: Result<Option<FxReadableStream<S>>, FxFutureError>)
    requires
        allow_fetch,
        old(streams).wf(),
    ensures
        final(streams).wf(),
        final(streams).poisoned == old(streams).poisoned,
        final(streams).inner.counter == old(streams).inner.counter,
        match (request, body) {
            (Err(fault), Err(FxFutureError::SerializationError { reason })) => reason@
                == "failed to decode memory: "@ + fault@ && *final(streams) == *old(streams),
            (Ok(None), Ok(None)) => *final(streams) == *old(streams),
            (Ok(Some(index)), Ok(Some(stream))) => !old(streams).poisoned
                && old(streams).inner.pool@.dom().contains(index as u64) && stream.index == index
                && stream.stream == old(streams).inner.pool@[index as u64]
                && final(streams).inner.pool@ == old(streams).inner.pool@.remove(index as u64),
            (Ok(Some(index)), Err(FxFutureError::FetchError { reason })) => final(streams).inner.pool@
                == old(streams).inner.pool@ && if old(streams).poisoned {
                reason@ == "failed to read stream: "@ + LOCK_POISONED_FAULT@
            } else {
                !old(streams).inner.pool@.dom().contains(index as u64) && reason@
                    == "stream not found"@
            },
            _ => false,
        },
{
    match request {
        Err(fault) => {
            let mut reason = owned("failed to decode memory: ");
            reason.push_str(fault.as_str());
            Err(FxFutureError::SerializationError { reason })
        },
        Ok(None) => Ok(None),
        Ok(Some(index)) => match streams.read(index) {
            Ok(Some(stream)) => Ok(Some(stream)),
            Ok(None) => Err(FxFutureError::FetchError { reason: owned("stream not found") }),
            Err(_) => {
                let mut reason = owned("failed to read stream: ");
                reason.push_str(LOCK_POISONED_FAULT);
                Err(FxFutureError::FetchError { reason })
            },
        },
    }
}

/// What a function that made a request is told in the end; `sent` is the response, or what became
/// of the request.
pub fn fetch_outcome(sent: Result<Vec<u8>, String>) -> (told: Result<Vec<u8>, FxFutureError>)
    ensures
        match (sent, told) {
            (Ok(response), Ok(r)) => r == response,
            (Err(fault), Err(FxFutureError::FetchError { reason })) => reason@
                == "request failed: "@ + fault@,
            _ => false,
        },
{
    match sent {
        Ok(response) => Ok(response),
        Err(fault) => {
            let mut reason = owned("request failed: ");
            reason.push_str(fault.as_str());
            Err(FxFutureError::FetchError { reason })
        },
    }
}

/// Why a call to a database failed.
#[derive(Debug)]
pub enum FxSqlError {
    SerializationError { reason: String },
    BindingNotExists,
    QueryFailed { reason: String },
    MigrationFailed { reason: String },
}

/// What a query gives: `decoded` says whether the request could be read, `bound` whether the
/// function has the database, `result` what the database gave.
pub fn api_sql_exec(
    decoded: Result<(), String>,
    bound: bool,
    result: Result<QueryResult, SqlError>,
) -> (given: Result<QueryResult, FxSqlError>)
    ensures
        match (decoded, given) {
            (Err(fault), Err(FxSqlError::SerializationError { reason })) => reason@
                == "failed to decode request: "@ + fault@,
            (Ok(()), Err(FxSqlError::BindingNotExists)) => !bound,
            (Ok(()), Err(FxSqlError::QueryFailed { reason })) => bound && (result matches Err(err)
                && reason@ == sql::sql_error_message(err@)),
            (Ok(()), Ok(rows)) => bound && result == Ok::<_, SqlError>(rows),
            _ => false,
        },
{
    if let Err(fault) = decoded {
        let mut reason = owned("failed to decode request: ");
        reason.push_str(fault.as_str());
        return Err(FxSqlError::SerializationError { reason });
    }
    if !bound {
        return Err(FxSqlError::BindingNotExists);
    }
    match result {
        Ok(rows) => Ok(rows),
        Err(err) => Err(FxSqlError::QueryFailed { reason: err.message() }),
    }
}

/// What queries in one transaction give: `decoded` says whether the request could be read. The
/// function has to have the database, and the transaction to succeed.
pub fn api_sql_batch(decoded: Result<(), String>, bound: bool, result: Result<(), String>) -> (given:
    Result<(), FxSqlError>)
    requires
        decoded is Ok ==> bound && result is Ok,
    ensures
        match (decoded, given) {
            (Err(fault), Err(FxSqlError::SerializationError { reason })) => reason@
                == "failed to decode request: "@ + fault@,
            (Ok(()), Ok(())) => true,
            _ => false,
        },
{
    match decoded {
        Ok(()) => Ok(()),
        Err(fault) => {
            let mut reason = owned("failed to decode request: ");
            reason.push_str(fault.as_str());
            Err(FxSqlError::SerializationError { reason })
        },
    }
}

/// What a migration gives: `decoded` says whether the request could be read, `result` what came of
/// the migration.
pub fn api_sql_migrate(decoded: Result<(), String>, result: Result<(), String>) -> (given: Result<
    (),
    FxSqlError,
>)
    ensures
        match (decoded, given) {
            (Err(fault), Err(FxSqlError::SerializationError { reason })) => reason@
                == "failed to decode migrations request: "@ + fault@,
            (Ok(()), Err(FxSqlError::MigrationFailed { reason })) => result == Err::<(), _>(reason),
            (Ok(()), Ok(())) => result is Ok,
            _ => false,
        },
{
    if let Err(fault) = decoded {
        let mut reason = owned("failed to decode migrations request: ");
        reason.push_str(fault.as_str());
        return Err(FxSqlError::SerializationError { reason });
    }
    match result {
        Ok(()) => Ok(()),
        Err(reason) => Err(FxSqlError::MigrationFailed { reason }),
    }
}

/// The event for a message of a function; nothing where the function may not log, or the message
/// could not be read.
pub fn api_log(
    allow_log: bool,
    function_id: &FunctionId,
    message: Option<(LogLevel, Table<String, String>)>,
) -> (event: Option<LogMessageEvent>)
    requires
        message matches Some((_, fields)) ==> fields.wf(),
    ensures
        match event {
            None => !allow_log || message is None,
            Some(event) => allow_log && (message matches Some((level, fields)) && event.source@
                == LogSourceView::Function(function_id@) && event.event_type
                == LogEventType::Instant && event.level == logs::event_level(level)
                && event.fields.wf() && event.fields@.dom() =~= fields@.dom() && forall|
                k: Seq<char>,
            | #[trigger]
                event.fields@.dom().contains(k) ==> logs::is_text(event.fields@[k], fields@[k]@)),
        },
{
    if !allow_log {
        return None;
    }
    match message {
        None => None,
        Some((level, fields)) => Some(
            LogMessage::new(
                LogSource::function(function_id),
                LogEventType::Instant,
                level,
                fields,
            ).into_event(),
        ),
    }
}

/// Whether a text stands in the memory of a function at the given place.
pub open spec fn stands_at(memory: Seq<u8>, at: (i64, i64), text: Seq<char>) -> bool {
    0 <= at.0 && 0 <= at.1 && at.0 + at.1 <= memory.len() && text::utf8_text(
        memory.subrange(at.0 as int, at.0 + at.1),
    ) == Some(text)
}

/// A call goes to the function and the handler that are named in the memory, with the argument that
/// stands there.
pub proof fn calls_go_where_they_name(
    memory: &[u8],
    service: (i64, i64),
    function: (i64, i64),
    argument: (i64, i64),
    service_name: Seq<char>,
    function_name: Seq<char>,
    call: RpcCall,
)
    requires
        stands_at(memory@, service, service_name),
        stands_at(memory@, function, function_name),
        call_ensures(api_rpc, (memory, service, function, argument), call),
    ensures
        call.function_id.id@ == service_name,
        call.function_name@ == function_name,
        call.argument@ == memory@.subrange(argument.0 as int, argument.0 + argument.1),
        call.rpc_future_index is None,
{
}

/// A key is read from and written to the storage that is named in the memory, with the key and the value
/// that stand there, exactly where there is such a storage.
pub proof fn keys_are_kept_in_the_named_storage<S>(
    memory: &[u8],
    storage: &Table<String, S>,
    binding: (i64, i64),
    key: (i64, i64),
    value: (i64, i64),
    name: Seq<char>,
    read: Result<(String, Vec<u8>), i64>,
    write: Result<(String, Vec<u8>, Vec<u8>), i64>,
)
    requires
        stands_at(memory@, binding, name),
        call_ensures(api_kv_get::<S>, (memory, storage, binding, key), read),
        call_ensures(api_kv_set::<S>, (memory, storage, binding, key, value), write),
    ensures
        read is Ok <==> storage@.dom().contains(name),
        write is Ok <==> storage@.dom().contains(name),
        read matches Err(code) ==> code == 1,
        write matches Err(code) ==> code == 1,
        read matches Ok((at, k)) ==> at@ == name && k@ == memory@.subrange(
            key.0 as int,
            key.0 + key.1,
        ),
        write matches Ok((at, k, v)) ==> at@ == name && k@ == memory@.subrange(
            key.0 as int,
            key.0 + key.1,
        ) && v@ == memory@.subrange(value.0 as int, value.0 + value.1),
{
}

/// A value that is there is told as it is, and each outcome has a number of its own.
pub proof fn outcomes_have_their_numbers<E, T>(
    value: Option<Vec<u8>>,
    read: (i64, Option<Vec<u8>>),
    pushed: Result<HostPoolIndex, E>,
    code: i64,
    poll: Poll<T>,
    told: (i64, Option<T>),
    item: Poll<Option<T>>,
    heard: (i64, Option<T>),
)
    requires
        call_ensures(kv_get_code, (value,), read),
        call_ensures(pool_code::<E>, (pushed,), code),
        call_ensures(future_poll_code::<T>, (poll,), told),
        call_ensures(stream_poll_code::<T>, (item,), heard),
    ensures
        read.1 == value,
        read.0 == 0 <==> value is Some,
        read.0 == 2 <==> value is None,
        pushed matches Ok(index) ==> (index.0 <= i64::MAX ==> code == index.0),
        pushed is Err ==> code == -1,
        told.0 == 0 <==> poll is Pending,
        told.0 == 1 <==> poll is Ready,
        poll is Ready ==> told.1 == Some(poll->Ready_0),
        poll is Pending ==> told.1 is None,
        heard.0 == 0 <==> item is Pending,
        heard.0 == 1 <==> (item matches Poll::Ready(Some(_))),
        heard.0 == 2 <==> (item matches Poll::Ready(None)),
        item matches Poll::Ready(Some(given)) ==> heard.1 == Some(given),
        !(item matches Poll::Ready(Some(_))) ==> heard.1 is None,
{
}

/// A number is written with its digits, which read as the number again, and with a sign where it is
/// below zero.
pub proof fn signed_numbers_are_read_back(n: int)
    requires
        i64::MIN <= n <= i64::MAX,
    ensures
        n >= 0 ==> text::number_in(signed_decimal(n)) == n,
        n < 0 ==> signed_decimal(n)[0] == '-' && text::number_in(signed_decimal(n).skip(1)) == -n,
{
    reveal_strlit("-");
    text::lemma_decimal(if n < 0 {
        (-n) as nat
    } else {
        n as nat
    });
    if n < 0 {
        assert(signed_decimal(n).skip(1) =~= text::decimal((-n) as nat));
    }
}

/// What a stream of a function tells by its number is what its reader gets; a number that means nothing
/// is told as a failure that names it.
pub proof fn stream_numbers_are_understood(
    code: i64,
    response: Option<Vec<u8>>,
    poll: Poll<Option<Result<Vec<u8>, FxRuntimeError>>>,
)
    requires
        code == 1 ==> response is Some,
        call_ensures(stream_poll_next, (code, response), poll),
    ensures
        code == 0 <==> poll is Pending,
        code == 2 <==> (poll matches Poll::Ready(None)),
        code == 1 ==> (poll matches Poll::Ready(Some(Ok(item))) && Some(item) == response),
        code != 0 && code != 1 && code != 2 ==> (poll matches Poll::Ready(Some(Err(
            FxRuntimeError::StreamingError { reason },
        ))) && reason@ == "unexpected repsonse code from _fx_stream_next: "@ + signed_decimal(
            code as int,
        )),
{
}

/// A call that has not started is started at the export of its own function, one that has is polled
/// under its own number; what is to be dropped is dropped once, where the function can drop.
pub proof fn rpc_polls_do_what_is_due<I>(
    call: RpcCall,
    locked: bool,
    can_drop: bool,
    work: Result<RpcWork, FxRuntimeError>,
)
    ensures
        forall|context: &mut ExecutionContext<I>| #[trigger]
            call_ensures(RpcCall::poll::<I>, (&call, context, locked, can_drop), work) ==> {
                &&& work is Ok <==> locked
                &&& work is Ok && can_drop ==> work->Ok_0.drop_futures@ == context.futures_to_drop@
                    && final(context).futures_to_drop@.len() == 0
                &&& work is Ok && !can_drop ==> work->Ok_0.drop_futures@.len() == 0 && final(
                    context
                ).futures_to_drop@ == context.futures_to_drop@
                &&& work is Ok && call.rpc_future_index is None ==> (
                work->Ok_0.step matches RpcStep::Call { export } && export@ == "_fx_rpc_"@
                    + call.function_name@)
                &&& work is Ok && call.rpc_future_index is Some ==> (
                work->Ok_0.step matches RpcStep::Poll { index } && Some(index)
                    == call.rpc_future_index)
                &&& work is Err ==> *final(context) == *context
            },
{
}

/// An error that the function told goes before what its call returned; the context is made anew exactly
/// where there was an error, and the call goes on under the number that was returned else.
pub proof fn told_errors_go_first<I>(
    call: RpcCall,
    execution_error: Option<String>,
    returned: Result<i64, String>,
    next: Result<i64, FxRuntimeError>,
)
    ensures
        forall|context: &mut ExecutionContext<I>| #[trigger]
            call_ensures(
                RpcCall::called::<I>,
                (&call, context, execution_error, returned),
                next,
            ) ==> {
                &&& next is Ok <==> execution_error is None && returned is Ok
                &&& next is Ok ==> next->Ok_0 == returned->Ok_0
                &&& execution_error is Some ==> next == Err::<i64, _>(
                    FxRuntimeError::ServiceExecutionError { error: execution_error->0 },
                )
                &&& execution_error is None && returned is Err ==> (next matches Err(
                    FxRuntimeError::ServiceInternalError { reason },
                ) && reason@ == "rpc call failed: "@ + returned->Err_0@)
                &&& final(context).needs_recreate <==> context.needs_recreate || next is Err
                &&& final(context).instance == context.instance
                &&& final(context).futures_to_drop == context.futures_to_drop
            },
{
}

/// The response of a call is the one that the function sent, once it says that it is ready; until then
/// the call is remembered under its number.
pub proof fn responses_come_when_ready<I>(
    index: i64,
    ready: Result<i64, String>,
    response: Option<Vec<u8>>,
    first: Poll<Result<Vec<u8>, FxRuntimeError>>,
    later: Poll<Result<Vec<u8>, FxRuntimeError>>,
)
    ensures
        forall|call: &mut RpcCall, context: &mut ExecutionContext<I>| #[trigger]
            call_ensures(
                RpcCall::first_polled::<I>,
                (call, context, index, ready, response),
                first,
            ) ==> {
                &&& first is Pending <==> (ready matches Ok(code) && code != 1)
                &&& first matches Poll::Ready(Ok(bytes)) ==> Some(bytes) == response
                &&& ready is Err <==> (first matches Poll::Ready(Err(_)))
                &&& first is Pending ==> final(call).rpc_future_index == Some(index)
                &&& first is Ready ==> final(call).rpc_future_index == call.rpc_future_index
                &&& final(context).needs_recreate <==> context.needs_recreate || ready is Err
            },
        forall|call: &mut RpcCall| #[trigger]
            call_ensures(RpcCall::polled, (call, ready, response), later) ==> {
                &&& later is Pending <==> (ready matches Ok(code) && code != 1)
                &&& later matches Poll::Ready(Ok(bytes)) ==> Some(bytes) == response && final(
                    call
                ).rpc_future_index is None
                &&& ready is Err <==> (later matches Poll::Ready(Err(_)))
                &&& later is Pending ==> final(call).rpc_future_index == call.rpc_future_index
            },
{
}

/// A call that is given up is to be dropped under its own number exactly where it has started.
pub proof fn started_rpcs_are_to_be_dropped<I>(call: RpcCall)
    ensures
        forall|context: &mut ExecutionContext<I>| #[trigger]
            call_ensures(RpcCall::dropped::<I>, (&call, context), ()) ==> {
                &&& call.rpc_future_index is None ==> final(context).futures_to_drop@
                    == context.futures_to_drop@
                &&& call.rpc_future_index is Some ==> final(context).futures_to_drop@.len()
                    == context.futures_to_drop@.len() + 1 && final(
                    context
                ).futures_to_drop@.last() == call.rpc_future_index->0 && final(
                    context
                ).futures_to_drop@.drop_last() =~= context.futures_to_drop@
            },
{
}

/// What came of a call, a stream, a request, a query and migrations is told: what there is as it is, and
/// a failure with its reason.
pub proof fn results_pass_or_say_why(
    called: Result<Vec<u8>, FxRuntimeError>,
    told_call: Result<Vec<u8>, FxFutureError>,
    pushed: Result<HostPoolIndex, FxRuntimeError>,
    told_push: Result<i64, FxStreamError>,
    sent: Result<Vec<u8>, String>,
    told_fetch: Result<Vec<u8>, FxFutureError>,
    decoded: Result<(), String>,
    bound: bool,
    queried: Result<QueryResult, SqlError>,
    told_query: Result<QueryResult, FxSqlError>,
    migrated: Result<(), String>,
    told_migration: Result<(), FxSqlError>,
)
    requires
        call_ensures(rpc_outcome, (called,), told_call),
        call_ensures(api_stream_export, (pushed,), told_push),
        call_ensures(fetch_outcome, (sent,), told_fetch),
        call_ensures(api_sql_exec, (decoded, bound, queried), told_query),
        call_ensures(api_sql_migrate, (decoded, migrated), told_migration),
    ensures
        called is Ok <==> told_call is Ok,
        called is Ok ==> told_call->Ok_0 == called->Ok_0,
        called is Err ==> told_call->Err_0 is RpcError,
        pushed is Ok <==> told_push is Ok,
        pushed is Ok && pushed->Ok_0.0 <= i64::MAX ==> told_push->Ok_0 == pushed->Ok_0.0,
        pushed is Err ==> told_push->Err_0 is PushFailed,
        sent is Ok <==> told_fetch is Ok,
        sent is Ok ==> told_fetch->Ok_0 == sent->Ok_0,
        sent is Err ==> (told_fetch->Err_0 matches FxFutureError::FetchError { reason } && reason@
            == "request failed: "@ + sent->Err_0@),
        told_query is Ok <==> decoded is Ok && bound && queried is Ok,
        told_query is Ok ==> told_query->Ok_0 == queried->Ok_0,
        decoded is Err ==> told_query->Err_0 is SerializationError
            && told_migration->Err_0 is SerializationError,
        decoded is Ok && !bound ==> told_query->Err_0 is BindingNotExists,
        decoded is Ok && bound && queried is Err ==> told_query->Err_0 is QueryFailed,
        told_migration is Ok <==> decoded is Ok && migrated is Ok,
        decoded is Ok && migrated is Err ==> (told_migration->Err_0 matches
            FxSqlError::MigrationFailed { reason } && reason@ == migrated->Err_0@),
{
}

/// An item of a stream of the host is told as it is, and its end, its pauses and its failures as what
/// they are.
pub proof fn host_streams_are_told(
    poll: StreamPoll,
    told: (i64, Option<Result<Vec<u8>, FxStreamError>>),
)
    requires
        call_ensures(api_stream_poll_next, (poll,), told),
    ensures
        poll is Pending <==> told.0 == 0,
        (poll matches Poll::Ready(None)) <==> told.0 == 2,
        (poll matches Poll::Ready(Some(_))) <==> told.0 == 1,
        poll matches Poll::Ready(Some(Ok(item))) ==> told.1 == Some(Ok::<_, FxStreamError>(item)),
        poll matches Poll::Ready(Some(Err(_))) ==> (told.1 matches Some(Err(_))),
        !(poll matches Poll::Ready(Some(_))) ==> told.1 is None,
{
}

/// The body of a request is the stream that it names, which is no longer kept then; a request without
/// one has none.
pub proof fn bodies_are_the_named_streams<S>(
    request: Result<Option<i64>, String>,
    body: Result<Option<FxReadableStream<S>>, FxFutureError>,
    other: u64,
)
    ensures
        forall|streams: &mut StreamsPool<S>| #[trigger]
            call_ensures(api_fetch::<S>, (true, request, streams), body) ==> {
                &&& request matches Ok(None) ==> (body matches Ok(None)) && *final(streams)
                    == *streams
                &&& request is Err ==> body is Err && body->Err_0 is SerializationError
                    && *final(streams) == *streams
                &&& request matches Ok(Some(index)) ==> {
                    &&& body is Ok <==> !streams.poisoned && streams.inner.pool@.dom().contains(
                        index as u64,
                    )
                    &&& body is Ok ==> body->Ok_0 is Some && body->Ok_0->0.stream
                        == streams.inner.pool@[index as u64] && body->Ok_0->0.index == index
                        && !final(streams).inner.pool@.dom().contains(index as u64)
                    &&& body is Err ==> body->Err_0 is FetchError && final(streams).inner.pool@
                        == streams.inner.pool@
                    &&& other != index as u64 && streams.inner.pool@.dom().contains(other) ==> final(
                        streams
                    ).inner.pool@.dom().contains(other) && final(streams).inner.pool@[other]
                        == streams.inner.pool@[other]
                }
            },
{
}

/// A message is logged exactly where the function may log and the message can be read: under the name of
/// the function, at the level of the message, with the fields of the message.
pub proof fn messages_are_logged_where_allowed(
    allow_log: bool,
    function_id: &FunctionId,
    level: LogLevel,
    fields: Table<String, String>,
    event: Option<LogMessageEvent>,
    name: Seq<char>,
)
    requires
        call_ensures(api_log, (allow_log, function_id, Some((level, fields))), event),
    ensures
        event is Some <==> allow_log,
        event is Some ==> event->0.source@ == LogSourceView::Function(function_id.id@),
        event is Some ==> (level is Error <==> event->0.level is Error) && (level is Warn
            <==> event->0.level is Warn) && (level is Info <==> event->0.level is Info) && (
        level is Debug <==> event->0.level is Debug) && (level is Trace
            <==> event->0.level is Trace),
        event is Some ==> (event->0.fields@.dom().contains(name) <==> fields@.dom().contains(name)),
        event is Some && fields@.dom().contains(name) ==> logs::is_text(
            event->0.fields@[name],
            fields@[name]@,
        ),
{
}

/// The export of a handler is named after it, and a batch of statements that could be read is done.
pub proof fn handlers_are_found_under_their_names(
    function_name: &str,
    export: String,
    other: &str,
    of_other: String,
    decoded: Result<(), String>,
    bound: bool,
    result: Result<(), String>,
    given: Result<(), FxSqlError>,
)
    requires
        call_ensures(handler_export, (function_name,), export),
        call_ensures(handler_export, (other,), of_other),
        call_ensures(api_sql_batch, (decoded, bound, result), given),
    ensures
        export@ == "_fx_rpc_"@ + function_name@,
        export@ == of_other@ ==> function_name@ == other@,
        given is Ok <==> decoded is Ok,
        given is Err ==> given->Err_0 is SerializationError,
{
    if export@ == of_other@ {
        let mark = "_fx_rpc_"@;
        assert((mark + function_name@).len() == (mark + other@).len());
        assert forall|i: int| 0 <= i < function_name@.len() implies function_name@[i]
            == other@[i] by {
            assert(export@[mark.len() + i] == function_name@[i]);
            assert(of_other@[mark.len() + i] == other@[i]);
        }
        assert(function_name@ =~= other@);
    }
}

/// A failure of a call, of a stream and of a statement is told with the words for it.
pub proof fn failures_are_told_in_words(
    err: FxRuntimeError,
    message: String,
    told_call: Result<Vec<u8>, FxFutureError>,
    told_push: Result<i64, FxStreamError>,
    told_item: (i64, Option<Result<Vec<u8>, FxStreamError>>),
    failed: SqlError,
    words: String,
    told_query: Result<QueryResult, FxSqlError>,
    fault: String,
    undecoded: Result<QueryResult, FxSqlError>,
    unmigrated: Result<(), FxSqlError>,
)
    requires
        call_ensures(FxRuntimeError::message, (&err,), message),
        call_ensures(rpc_outcome, (Err::<Vec<u8>, _>(err),), told_call),
        call_ensures(api_stream_export, (Err::<HostPoolIndex, _>(err),), told_push),
        call_ensures(api_stream_poll_next, (StreamPoll::Ready(Some(Err(err))),), told_item),
        call_ensures(SqlError::message, (&failed,), words),
        call_ensures(
            api_sql_exec,
            (Ok::<(), String>(()), true, Err::<QueryResult, _>(failed)),
            told_query,
        ),
        call_ensures(
            api_sql_exec,
            (Err::<(), String>(fault), true, Err::<QueryResult, _>(failed)),
            undecoded,
        ),
        call_ensures(
            api_sql_migrate,
            (Err::<(), String>(fault), Ok::<(), String>(())),
            unmigrated,
        ),
    ensures
        told_call matches Err(FxFutureError::RpcError { reason }) && reason@ == message@,
        told_push matches Err(FxStreamError::PushFailed { reason }) && reason@ == message@,
        told_item.1 matches Some(Err(FxStreamError::PollFailed { reason })) && reason@ == message@,
        told_query matches Err(FxSqlError::QueryFailed { reason }) && reason@ == words@,
        undecoded matches Err(FxSqlError::SerializationError { reason }) && reason@
            == "failed to decode request: "@ + fault@,
        unmigrated matches Err(FxSqlError::SerializationError { reason }) && reason@
            == "failed to decode migrations request: "@ + fault@,
{
}

/// A request whose body cannot be had is refused with the reason.
pub proof fn missing_bodies_are_told<S>(
    index: i64,
    fault: String,
    body: Result<Option<FxReadableStream<S>>, FxFutureError>,
    undecoded: Result<Option<FxReadableStream<S>>, FxFutureError>,
)
    ensures
        forall|streams: &mut StreamsPool<S>| #[trigger]
            call_ensures(api_fetch::<S>, (true, Ok::<_, String>(Some(index)), streams), body) ==> {
                &&& streams.poisoned ==> (body matches Err(FxFutureError::FetchError { reason })
                    && reason@ == "failed to read stream: "@
                    + "StreamingError { reason: \"lock is poisoned: PoisonError { .. }\" }"@)
                &&& !streams.poisoned && !streams.inner.pool@.dom().contains(index as u64) ==> (
                body matches Err(FxFutureError::FetchError { reason }) && reason@
                    == "stream not found"@)
            },
        forall|streams: &mut StreamsPool<S>| #[trigger]
            call_ensures(
                api_fetch::<S>,
                (true, Err::<Option<i64>, _>(fault), streams),
                undecoded,
            ) ==> (undecoded matches Err(FxFutureError::SerializationError { reason }) && reason@
                == "failed to decode memory: "@ + fault@),
{
    assert(LOCK_POISONED_FAULT@
        == "StreamingError { reason: \"lock is poisoned: PoisonError { .. }\" }"@);
}

} // verus!
