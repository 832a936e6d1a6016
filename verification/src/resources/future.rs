//! Operations of a function that the host waits for, one call of the function after the other.
use vstd::prelude::*;

use crate::function::instance::{BackgroundTaskPollError, FunctionResponsePollError};
use crate::poll::Poll;
use crate::resources::resource::FunctionResourceId;

verus! {

/// What a wait yields, and whether the function has to be called again.
#[derive(Debug, PartialEq, Eq)]
pub struct PollStep<T> {
    pub outcome: Poll<T>,
    pub call_again: bool,
}

/// Whether an error of a background task leaves the instance unusable.
pub open spec fn task_error_is_fatal(err: BackgroundTaskPollError) -> bool {
    err == BackgroundTaskPollError::FunctionPanicked || err
        == BackgroundTaskPollError::FunctionCrashed
}

/// Whether an error of a response leaves the instance unusable.
pub open spec fn response_error_is_fatal(err: FunctionResponsePollError) -> bool {
    err == FunctionResponsePollError::FunctionPanicked || err
        == FunctionResponsePollError::FunctionCrashed
}

/// A background task of a function.
#[derive(Clone, Copy, Debug, PartialEq, Eq, Structural)]
pub struct FunctionBackgroundTask {
    pub resource_id: FunctionResourceId,
}

impl FunctionBackgroundTask {
    pub fn new(resource_id: FunctionResourceId) -> (task: Self)
        ensures
            task.resource_id == resource_id,
    {
        FunctionBackgroundTask { resource_id }
    }

    /// What the task yields once the call that is under way was asked; a panic or a crash marks
    /// the instance.
    pub fn poll(
        &self,
        has_panicked: &mut bool,
        call: Poll<Result<Poll<()>, BackgroundTaskPollError>>,
    ) -> (step: PollStep<Result<(), BackgroundTaskPollError>>)
        ensures
            match call {
                Poll::Pending => step.outcome is Pending && !step.call_again && *final(has_panicked)
                    == *old(has_panicked),
                Poll::Ready(Ok(Poll::Pending)) => step.outcome is Pending && step.call_again
                    && *final(has_panicked) == *old(has_panicked),
                Poll::Ready(Ok(Poll::Ready(()))) => step.outcome == Poll::Ready(
                    Ok::<(), BackgroundTaskPollError>(()),
                ) && !step.call_again && *final(has_panicked) == *old(has_panicked),
                Poll::Ready(Err(err)) => step.outcome == Poll::Ready(
                    Err::<(), BackgroundTaskPollError>(err),
                ) && !step.call_again && *final(has_panicked) == (*old(has_panicked)
                    || task_error_is_fatal(err)),
            },
    {
        match call {
            Poll::Pending => PollStep { outcome: Poll::Pending, call_again: false },
            Poll::Ready(Err(err)) => {
                if err == BackgroundTaskPollError::FunctionCrashed || err
                    == BackgroundTaskPollError::FunctionPanicked {
                    *has_panicked = true;
                }
                PollStep { outcome: Poll::Ready(Err(err)), call_again: false }
            },
            Poll::Ready(Ok(Poll::Pending)) => PollStep { outcome: Poll::Pending, call_again: true },
            Poll::Ready(Ok(Poll::Ready(()))) => PollStep {
                outcome: Poll::Ready(Ok(())),
                call_again: false,
            },
        }
    }
}

/// The response of a function that is being waited for.
#[derive(Clone, Copy, Debug, PartialEq, Eq, Structural)]
pub struct FunctionResponseFuture {
    pub resource_id: FunctionResourceId,
}

impl FunctionResponseFuture {
    pub fn new(resource_id: FunctionResourceId) -> (future: Self)
        ensures
            future.resource_id == resource_id,
    {
        FunctionResponseFuture { resource_id }
    }

    /// What the wait yields once the call that is under way was asked; a panic or a crash marks
    /// the instance.
    pub fn poll<R>(
        &self,
        has_panicked: &mut bool,
        call: Poll<Poll<Result<R, FunctionResponsePollError>>>,
    ) -> (step: PollStep<Result<R, FunctionResponsePollError>>)
        ensures
            match call {
                Poll::Pending => step.outcome is Pending && !step.call_again && *final(has_panicked)
                    == *old(has_panicked),
                Poll::Ready(Poll::Pending) => step.outcome is Pending && step.call_again
                    && *final(has_panicked) == *old(has_panicked),
                Poll::Ready(Poll::Ready(Ok(response))) => step.outcome == Poll::Ready(
                    Ok::<R, FunctionResponsePollError>(response),
                ) && !step.call_again && *final(has_panicked) == *old(has_panicked),
                Poll::Ready(Poll::Ready(Err(err))) => step.outcome == Poll::Ready(
                    Err::<R, FunctionResponsePollError>(err),
                ) && !step.call_again && *final(has_panicked) == (*old(has_panicked)
                    || response_error_is_fatal(err)),
            },
    {
        match call {
            Poll::Pending => PollStep { outcome: Poll::Pending, call_again: false },
            Poll::Ready(Poll::Pending) => PollStep { outcome: Poll::Pending, call_again: true },
            Poll::Ready(Poll::Ready(Err(err))) => {
                if err == FunctionResponsePollError::FunctionPanicked || err
                    == FunctionResponsePollError::FunctionCrashed {
                    *has_panicked = true;
                }
                PollStep { outcome: Poll::Ready(Err(err)), call_again: false }
            },
            Poll::Ready(Poll::Ready(Ok(response))) => PollStep {
                outcome: Poll::Ready(Ok(response)),
                call_again: false,
            },
        }
    }
}

/// A function counts as broken after a poll exactly where it did before or where the poll found that it
/// panicked or crashed; and it is called again exactly where it answered that it has nothing yet.
pub proof fn broken_functions_are_marked<R>(
    task: FunctionBackgroundTask,
    polled: Poll<Result<Poll<()>, BackgroundTaskPollError>>,
    task_step: PollStep<Result<(), BackgroundTaskPollError>>,
    future: FunctionResponseFuture,
    answered: Poll<Poll<Result<R, FunctionResponsePollError>>>,
    step: PollStep<Result<R, FunctionResponsePollError>>,
)
    ensures
        forall|has_panicked: &mut bool| #[trigger]
            call_ensures(FunctionBackgroundTask::poll, (&task, has_panicked, polled), task_step) ==> {
                &&& *final(has_panicked) <==> *has_panicked || (polled matches Poll::Ready(
                    Err(BackgroundTaskPollError::FunctionPanicked),
                )) || (polled matches Poll::Ready(Err(BackgroundTaskPollError::FunctionCrashed)))
                &&& task_step.call_again <==> (polled matches Poll::Ready(Ok(Poll::Pending)))
                &&& task_step.outcome == Poll::Ready(Ok::<(), BackgroundTaskPollError>(())) <==> (
                polled matches Poll::Ready(Ok(Poll::Ready(()))))
                &&& polled matches Poll::Ready(Err(err)) ==> task_step.outcome == Poll::Ready(
                    Err::<(), _>(err),
                )
            },
        forall|has_panicked: &mut bool| #[trigger]
            call_ensures(FunctionResponseFuture::poll::<R>, (&future, has_panicked, answered), step)
                ==> {
                &&& *final(has_panicked) <==> *has_panicked || (answered matches Poll::Ready(
                    Poll::Ready(Err(FunctionResponsePollError::FunctionPanicked)),
                )) || (answered matches Poll::Ready(
                    Poll::Ready(Err(FunctionResponsePollError::FunctionCrashed)),
                ))
                &&& step.call_again <==> (answered matches Poll::Ready(Poll::Pending))
                &&& answered matches Poll::Ready(Poll::Ready(answer)) ==> step.outcome
                    == Poll::Ready(answer)
                &&& step.outcome is Ready ==> (answered matches Poll::Ready(Poll::Ready(_)))
            },
{
}

} // verus!
