//! The execution of an invoked function: one call to start it, and then polls until it answers.
use vstd::prelude::*;

use crate::compiler::CompilerMetadata;
use crate::function::id::FunctionId;
use crate::poll::Poll;
use crate::runtime::engine::{ExecutionContext, ExecutionContextId};
use crate::runtime::error::{FunctionExecutionError, FunctionExecutionInternalRuntimeError};

verus! {

/// Why a function did not start.
#[derive(Debug)]
pub enum FunctionInvokeApiError {
    /// Handler with this name is not defined in the function
    HandlerNotDefined,
    /// Failed to invoke function because it panicked
    FunctionPanicked { message: String },
}

/// Why a function that was started did not answer.
#[derive(Debug)]
pub enum FunctionFuturePollApiError {
    FunctionRuntimeError,
    UserApplicationError { description: String },
    FunctionPanicked { message: String },
}

/// Why a call into a function failed.
#[derive(Debug)]
pub enum FunctionApiError {
    FunctionPanicked { message: String },
}

/// What a function answers when it is told to start.
#[derive(Debug)]
pub enum InvokeReply {
    FutureId(u64),
    HandlerNotFound,
}

/// What a function answers when it is polled.
#[derive(Debug)]
pub enum FuturePollReply {
    Pending,
    Ready(Vec<u8>),
    InternalRuntimeError,
    UserApplicationError { description: String },
}

/// What a function answers when it is asked for the next item of a stream.
#[derive(Debug)]
pub enum StreamPollReply {
    Pending,
    Ready(Vec<u8>),
    Finished,
}

/// Whether and under which number a function has started.
pub fn function_invoke(reply: Result<InvokeReply, FunctionApiError>) -> (started: Result<
    u64,
    FunctionInvokeApiError,
>)
    ensures
        started == (match reply {
            Ok(InvokeReply::FutureId(id)) => Ok(id),
            Ok(InvokeReply::HandlerNotFound) => Err(FunctionInvokeApiError::HandlerNotDefined),
            Err(FunctionApiError::FunctionPanicked { message }) => Err(
                FunctionInvokeApiError::FunctionPanicked { message },
            ),
        }),
{
    match reply {
        Ok(InvokeReply::FutureId(id)) => Ok(id),
        Ok(InvokeReply::HandlerNotFound) => Err(FunctionInvokeApiError::HandlerNotDefined),
        Err(FunctionApiError::FunctionPanicked { message }) => Err(
            FunctionInvokeApiError::FunctionPanicked { message },
        ),
    }
}

/// How far a function has come.
pub fn function_future_poll(reply: Result<FuturePollReply, FunctionApiError>) -> (poll: Result<
    Poll<Vec<u8>>,
    FunctionFuturePollApiError,
>)
    ensures
        poll == (match reply {
            Ok(FuturePollReply::Pending) => Ok(Poll::Pending),
            Ok(FuturePollReply::Ready(response)) => Ok(Poll::Ready(response)),
            Ok(FuturePollReply::InternalRuntimeError) => Err(
                FunctionFuturePollApiError::FunctionRuntimeError,
            ),
            Ok(FuturePollReply::UserApplicationError { description }) => Err(
                FunctionFuturePollApiError::UserApplicationError { description },
            ),
            Err(FunctionApiError::FunctionPanicked { message }) => Err(
                FunctionFuturePollApiError::FunctionPanicked { message },
            ),
        }),
{
    match reply {
        Ok(FuturePollReply::Pending) => Ok(Poll::Pending),
        Ok(FuturePollReply::Ready(response)) => Ok(Poll::Ready(response)),
        Ok(FuturePollReply::InternalRuntimeError) => Err(
            FunctionFuturePollApiError::FunctionRuntimeError,
        ),
        Ok(FuturePollReply::UserApplicationError { description }) => Err(
            FunctionFuturePollApiError::UserApplicationError { description },
        ),
        Err(FunctionApiError::FunctionPanicked { message }) => Err(
            FunctionFuturePollApiError::FunctionPanicked { message },
        ),
    }
}

/// The next item of a stream of a function.
pub fn function_stream_poll_next(reply: StreamPollReply) -> (poll: Poll<Option<Vec<u8>>>)
    ensures
        poll == (match reply {
            StreamPollReply::Pending => Poll::Pending,
            StreamPollReply::Ready(item) => Poll::Ready(Some(item)),
            StreamPollReply::Finished => Poll::Ready(None),
        }),
{
    match reply {
        StreamPollReply::Pending => Poll::Pending,
        StreamPollReply::Ready(item) => Poll::Ready(Some(item)),
        StreamPollReply::Finished => Poll::Ready(None),
    }
}

/// What is told of an invocation that has ended.
#[derive(Debug)]
pub struct FunctionInvocationEvent {
    pub compiler_metadata: CompilerMetadata,
}

/// What a poll of an execution does in the function.
#[derive(Debug)]
pub struct FunctionWork {
    /// The futures and the streams that are dropped first, in this order.
    pub drop_futures: Vec<i64>,
    pub drop_streams: Vec<i64>,
    pub call: FunctionCall,
}

/// The call of a poll.
#[derive(Debug)]
pub enum FunctionCall {
    /// The function is started.
    Invoke { function_name: String, argument: Vec<u8> },
    /// The function was started before.
    Poll { future_id: u64 },
}

/// What an execution gives.
pub type Answer = Poll<Result<(Vec<u8>, FunctionInvocationEvent), FunctionExecutionError>>;

/// An execution of a function.
#[derive(Debug)]
pub struct FunctionRuntimeFuture {
    pub function_id: FunctionId,
    pub execution_context_id: ExecutionContextId,
    pub function_name: String,
    pub argument: Vec<u8>,
    /// The number under which the function was started, until it answers.
    pub rpc_future_index: Option<i64>,
}

/// What the error of a poll tells of an execution.
pub open spec fn execution_error(err: FunctionFuturePollApiError) -> FunctionExecutionError {
    match err {
        FunctionFuturePollApiError::FunctionRuntimeError =>
            FunctionExecutionError::FunctionRuntimeError,
        FunctionFuturePollApiError::UserApplicationError { description } =>
            FunctionExecutionError::UserApplicationError { description },
        FunctionFuturePollApiError::FunctionPanicked { message } =>
            FunctionExecutionError::FunctionPanicked { message },
    }
}

fn execution_error_of(err: FunctionFuturePollApiError) -> (execution: FunctionExecutionError)
    ensures
        execution == execution_error(err),
{
    match err {
        FunctionFuturePollApiError::FunctionRuntimeError =>
            FunctionExecutionError::FunctionRuntimeError,
        FunctionFuturePollApiError::UserApplicationError { description } =>
            FunctionExecutionError::UserApplicationError { description },
        FunctionFuturePollApiError::FunctionPanicked { message } =>
            FunctionExecutionError::FunctionPanicked { message },
    }
}

/// Whether an answer is that of a poll that failed or is done, and the other way round.
pub open spec fn answers(
    answer: Answer,
    polled: Result<Poll<Vec<u8>>, FunctionFuturePollApiError>,
    metadata: CompilerMetadata,
) -> bool {
    match (polled, answer) {
        (Err(err), Poll::Ready(Err(execution))) => execution == execution_error(err),
        (Ok(Poll::Pending), Poll::Pending) => true,
        (Ok(Poll::Ready(response)), Poll::Ready(Ok((given, event)))) => given == response
            && event.compiler_metadata.backend@ == metadata.backend@,
        _ => false,
    }
}

impl FunctionRuntimeFuture {
    /// An execution that has not started.
    pub fn new(
        function_id: FunctionId,
        execution_context_id: ExecutionContextId,
        function_name: String,
        argument: Vec<u8>,
    ) -> (future: Self)
        ensures
            future.function_id == function_id,
            future.execution_context_id == execution_context_id,
            future.function_name == function_name,
            future.argument == argument,
            future.rpc_future_index is None,
    {
        FunctionRuntimeFuture {
            function_id,
            execution_context_id,
            function_name,
            argument,
            rpc_future_index: None,
        }
    }

    /// What a poll does in the function; `locked` says whether the context could be taken. What
    /// was to be dropped is dropped with it.
    pub fn poll<I>(&self, context: &mut ExecutionContext<I>, locked: bool) -> (work: Result<
        FunctionWork,
        FunctionExecutionError,
    >)
        ensures
            match work {
                Err(err) => !locked && err == FunctionExecutionError::RuntimeError(
                    FunctionExecutionInternalRuntimeError::StoreFailedToLock,
                ) && *final(context) == *old(context),
                Ok(work) => locked && work.drop_futures == old(context).futures_to_drop
                    && work.drop_streams == old(context).streams_to_drop && final(context).futures_to_drop@.len() == 0 && final(context).streams_to_drop@.len() == 0
                    && final(context).needs_recreate == old(context).needs_recreate && final(context).instance == old(context).instance && final(context).compiler_metadata == old(context).compiler_metadata && final(context).function_id == old(context).function_id && (
                match (self.rpc_future_index, work.call) {
                    (Some(index), FunctionCall::Poll { future_id }) => future_id == index as u64,
                    (None, FunctionCall::Invoke { function_name, argument }) => function_name@
                        == self.function_name@ && argument@ == self.argument@,
                    _ => false,
                }),
            },
    {
        if !locked {
            return Err(
                FunctionExecutionError::from(
                    FunctionExecutionInternalRuntimeError::StoreFailedToLock,
                ),
            );
        }
        let mut drop_futures: Vec<i64> = Vec::new();
        std::mem::swap(&mut drop_futures, &mut context.futures_to_drop);
        let mut drop_streams: Vec<i64> = Vec::new();
        std::mem::swap(&mut drop_streams, &mut context.streams_to_drop);
        let call = match self.rpc_future_index {
            Some(index) => FunctionCall::Poll { future_id: index as u64 },
            None => FunctionCall::Invoke {
                function_name: self.function_name.clone(),
                argument: self.argument.clone(),
            },
        };
        Ok(FunctionWork { drop_futures, drop_streams, call })
    }

    /// What comes of the start of the function: its number, with which it is polled next, or the
    /// error that the execution ends with. A panic has the context created anew; a missing handler
    /// does not, which that would not help.
    pub fn invoked<I>(
        &self,
        context: &mut ExecutionContext<I>,
        started: Result<u64, FunctionInvokeApiError>,
    ) -> (next: Result<u64, FunctionExecutionError>)
        ensures
            next == (match started {
                Ok(id) => Ok(id),
                Err(FunctionInvokeApiError::HandlerNotDefined) => Err(
                    FunctionExecutionError::HandlerNotDefined,
                ),
                Err(FunctionInvokeApiError::FunctionPanicked { message }) => Err(
                    FunctionExecutionError::FunctionPanicked { message },
                ),
            }),
            *final(context) == (ExecutionContext {
                needs_recreate: old(context).needs_recreate || (started matches Err(
                    FunctionInvokeApiError::FunctionPanicked { .. },
                )),
                ..*old(context)
            }),
    {
        match started {
            Ok(id) => Ok(id),
            Err(FunctionInvokeApiError::HandlerNotDefined) => Err(
                FunctionExecutionError::HandlerNotDefined,
            ),
            Err(FunctionInvokeApiError::FunctionPanicked { message }) => {
                context.needs_recreate = true;
                Err(FunctionExecutionError::FunctionPanicked { message })
            },
        }
    }

    /// What comes of the first poll, right after the start. A panic has the context created anew;
    /// a function that is not done is polled again later.
    pub fn first_polled<I>(
        &mut self,
        context: &mut ExecutionContext<I>,
        future_id: u64,
        polled: Result<Poll<Vec<u8>>, FunctionFuturePollApiError>,
    ) -> (answer: Answer)
        ensures
            answers(answer, polled, old(context).compiler_metadata),
            *final(context) == (ExecutionContext {
                needs_recreate: old(context).needs_recreate || (polled matches Err(
                    FunctionFuturePollApiError::FunctionPanicked { .. },
                )),
                ..*old(context)
            }),
            *final(self) == (FunctionRuntimeFuture {
                rpc_future_index: if polled == Ok::<_, FunctionFuturePollApiError>(
                    Poll::<Vec<u8>>::Pending,
                ) {
                    Some(future_id as i64)
                } else {
                    old(self).rpc_future_index
                },
                ..*old(self)
            }),
    {
        match polled {
            Err(err) => {
                if let FunctionFuturePollApiError::FunctionPanicked { .. } = &err {
                    context.needs_recreate = true;
                }
                Poll::Ready(Err(execution_error_of(err)))
            },
            Ok(Poll::Pending) => {
                self.rpc_future_index = Some(future_id as i64);
                Poll::Pending
            },
            Ok(Poll::Ready(response)) => {
                let compiler_metadata = CompilerMetadata {
                    backend: context.compiler_metadata.backend.clone(),
                };
                Poll::Ready(Ok((response, FunctionInvocationEvent { compiler_metadata })))
            },
        }
    }

    /// What comes of a later poll. The number of the function is forgotten when it answers.
    pub fn polled<I>(
        &mut self,
        context: &ExecutionContext<I>,
        polled: Result<Poll<Vec<u8>>, FunctionFuturePollApiError>,
    ) -> (answer: Answer)
        ensures
            answers(answer, polled, context.compiler_metadata),
            *final(self) == (FunctionRuntimeFuture {
                rpc_future_index: if polled matches Ok(Poll::Ready(_)) {
                    None
                } else {
                    old(self).rpc_future_index
                },
                ..*old(self)
            }),
    {
        match polled {
            Err(err) => Poll::Ready(Err(execution_error_of(err))),
            Ok(Poll::Pending) => Poll::Pending,
            Ok(Poll::Ready(response)) => {
                self.rpc_future_index = None;
                let compiler_metadata = CompilerMetadata {
                    backend: context.compiler_metadata.backend.clone(),
                };
                Poll::Ready(Ok((response, FunctionInvocationEvent { compiler_metadata })))
            },
        }
    }

    /// Has the function drop an execution that is given up before it has answered.
    pub fn dropped<I>(&self, context: &mut ExecutionContext<I>)
        ensures
            final(context).futures_to_drop@ == (match self.rpc_future_index {
                Some(index) => old(context).futures_to_drop@.push(index),
                None => old(context).futures_to_drop@,
            }),
            final(context).streams_to_drop == old(context).streams_to_drop,
            final(context).needs_recreate == old(context).needs_recreate,
            final(context).instance == old(context).instance,
            final(context).function_id == old(context).function_id,
            final(context).compiler_metadata == old(context).compiler_metadata,
    {
        if let Some(index) = self.rpc_future_index {
            context.futures_to_drop.push(index);
        }
    }
}

/// An execution that is given up while the function has not answered is dropped in the function
/// the next time that the context is polled.
pub proof fn given_up_executions_are_dropped<I>(
    future: FunctionRuntimeFuture,
    before: ExecutionContext<I>,
    after: ExecutionContext<I>,
    work: FunctionWork,
)
    requires
        future.rpc_future_index is Some,
        after.futures_to_drop@ == before.futures_to_drop@.push(future.rpc_future_index->0),
        work.drop_futures == after.futures_to_drop,
    ensures
        work.drop_futures@.contains(future.rpc_future_index->0),
        work.drop_futures@.last() == future.rpc_future_index->0,
{
    assert(work.drop_futures@.last() == future.rpc_future_index->0);
}

/// A call starts under the number that the function gave; a handler that is not there is told from a
/// panic, which keeps its message and has the context made anew, as nothing else does.
pub proof fn started_calls_have_their_numbers<I>(
    reply: Result<InvokeReply, FunctionApiError>,
    started: Result<u64, FunctionInvokeApiError>,
    future: FunctionRuntimeFuture,
    next: Result<u64, FunctionExecutionError>,
)
    requires
        call_ensures(function_invoke, (reply,), started),
    ensures
        forall|context: &mut ExecutionContext<I>| #[trigger]
            call_ensures(
                FunctionRuntimeFuture::invoked::<I>,
                (&future, context, started),
                next,
            ) ==> {
                &&& reply matches Ok(InvokeReply::FutureId(id)) ==> next == Ok::<
                    _,
                    FunctionExecutionError,
                >(id)
                &&& (reply matches Ok(InvokeReply::HandlerNotFound)) <==> (next matches Err(
                    FunctionExecutionError::HandlerNotDefined,
                ))
                &&& reply matches Err(FunctionApiError::FunctionPanicked { message }) ==> next
                    == Err::<u64, _>((FunctionExecutionError::FunctionPanicked { message }))
                &&& final(context).needs_recreate <==> context.needs_recreate || reply is Err
                &&& final(context).instance == context.instance
                &&& final(context).function_id == context.function_id
                &&& final(context).futures_to_drop == context.futures_to_drop
                &&& final(context).streams_to_drop == context.streams_to_drop
            },
{
}

/// What a function answers to a poll is what its caller gets: the response as it is, each failure as
/// what it was, and nothing yet where it has nothing. A call that goes on is remembered under its
/// number, one that is over is not.
pub proof fn polled_calls_give_their_answers<I>(
    reply: Result<FuturePollReply, FunctionApiError>,
    polled: Result<Poll<Vec<u8>>, FunctionFuturePollApiError>,
    future_id: u64,
    first: Answer,
    context: &ExecutionContext<I>,
    later: Answer,
)
    requires
        call_ensures(function_future_poll, (reply,), polled),
    ensures
        forall|future: &mut FunctionRuntimeFuture, at: &mut ExecutionContext<I>| #[trigger]
            call_ensures(
                FunctionRuntimeFuture::first_polled::<I>,
                (future, at, future_id, polled),
                first,
            ) ==> {
                &&& first is Pending <==> (reply matches Ok(FuturePollReply::Pending))
                &&& reply matches Ok(FuturePollReply::Ready(response)) ==> (
                first matches Poll::Ready(Ok((given, _))) && given == response)
                &&& (reply matches Ok(FuturePollReply::InternalRuntimeError)) ==> (
                first matches Poll::Ready(Err(FunctionExecutionError::FunctionRuntimeError)))
                &&& reply matches Ok(FuturePollReply::UserApplicationError { description }) ==> (
                first matches Poll::Ready(Err(FunctionExecutionError::UserApplicationError {
                    description: d,
                })) && d == description)
                &&& reply matches Err(FunctionApiError::FunctionPanicked { message }) ==> (
                first matches Poll::Ready(Err(FunctionExecutionError::FunctionPanicked {
                    message: m,
                })) && m == message)
                &&& first is Pending ==> final(future).rpc_future_index == Some(future_id as i64)
                &&& first is Ready ==> final(future).rpc_future_index == future.rpc_future_index
                &&& final(future).function_name == future.function_name
                &&& final(future).argument == future.argument
                &&& final(at).needs_recreate <==> at.needs_recreate || reply is Err
            },
        forall|future: &mut FunctionRuntimeFuture| #[trigger]
            call_ensures(
                FunctionRuntimeFuture::polled::<I>,
                (future, context, polled),
                later,
            ) ==> {
                &&& later is Pending <==> (reply matches Ok(FuturePollReply::Pending))
                &&& reply matches Ok(FuturePollReply::Ready(response)) ==> (
                later matches Poll::Ready(Ok((given, _))) && given == response)
                    && final(future).rpc_future_index is None
                &&& !(reply matches Ok(FuturePollReply::Ready(_))) ==> final(
                    future
                ).rpc_future_index == future.rpc_future_index
                &&& reply matches Ok(FuturePollReply::UserApplicationError { description }) ==> (
                later matches Poll::Ready(Err(FunctionExecutionError::UserApplicationError {
                    description: d,
                })) && d == description)
                &&& reply matches Err(FunctionApiError::FunctionPanicked { message }) ==> (
                later matches Poll::Ready(Err(FunctionExecutionError::FunctionPanicked {
                    message: m,
                })) && m == message)
            },
{
}

/// A call that has not started is started with its own name and argument, one that has is polled under
/// its own number; everything that was to be dropped is dropped with it, once.
pub proof fn polls_do_what_is_due<I>(
    future: FunctionRuntimeFuture,
    locked: bool,
    work: Result<FunctionWork, FunctionExecutionError>,
)
    ensures
        forall|context: &mut ExecutionContext<I>| #[trigger]
            call_ensures(
                FunctionRuntimeFuture::poll::<I>,
                (&future, context, locked),
                work,
            ) ==> {
                &&& work is Ok <==> locked
                &&& work is Err ==> *final(context) == *context
                &&& work is Ok ==> work->Ok_0.drop_futures@ == context.futures_to_drop@
                    && work->Ok_0.drop_streams@ == context.streams_to_drop@ && final(
                    context
                ).futures_to_drop@.len() == 0 && final(context).streams_to_drop@.len() == 0
                &&& work is Ok && future.rpc_future_index is None ==> (
                work->Ok_0.call matches FunctionCall::Invoke { function_name, argument }
                    && function_name@ == future.function_name@ && argument@ == future.argument@)
                &&& work is Ok && future.rpc_future_index is Some ==> (
                work->Ok_0.call matches FunctionCall::Poll { future_id } && future_id
                    == future.rpc_future_index->0 as u64)
            },
{
}

/// An item of a stream passes as it is, and its end and its pauses as what they are.
pub proof fn stream_items_pass(reply: StreamPollReply, poll: Poll<Option<Vec<u8>>>)
    requires
        call_ensures(function_stream_poll_next, (reply,), poll),
    ensures
        reply is Pending <==> poll is Pending,
        reply is Finished <==> (poll matches Poll::Ready(None)),
        reply matches StreamPollReply::Ready(item) ==> poll == Poll::Ready(Some(item)),
{
}

/// A call that is given up is to be dropped under its own number, after those that already are, exactly
/// where it has started.
pub proof fn started_calls_are_to_be_dropped<I>(future: FunctionRuntimeFuture)
    ensures
        forall|context: &mut ExecutionContext<I>| #[trigger]
            call_ensures(FunctionRuntimeFuture::dropped::<I>, (&future, context), ()) ==> {
                &&& future.rpc_future_index is None ==> final(context).futures_to_drop@
                    == context.futures_to_drop@
                &&& future.rpc_future_index is Some ==> final(context).futures_to_drop@.len()
                    == context.futures_to_drop@.len() + 1 && final(
                    context
                ).futures_to_drop@.last() == future.rpc_future_index->0 && final(
                    context
                ).futures_to_drop@.drop_last() =~= context.futures_to_drop@
                &&& final(context).streams_to_drop == context.streams_to_drop
            },
{
}

} // verus!
