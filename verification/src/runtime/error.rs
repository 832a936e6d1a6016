//! What can go wrong when a function is invoked and executed.
use vstd::prelude::*;

use crate::compiler::CompilerError;
use crate::definition::DefinitionError;
use crate::text::owned;

verus! {

/// Why the runtime itself failed to invoke a function; there is a mistake in it then.
#[derive(Debug)]
pub enum FunctionInvokeInternalRuntimeError {
    ExecutionContextsFailedToLock { reason: String },
}

/// Why a function was not invoked.
#[derive(Debug)]
pub enum FunctionInvokeError {
    RuntimeError(FunctionInvokeInternalRuntimeError),
    /// There is no instance of a function without its definition.
    DefinitionMissing(DefinitionError),
    CodeFailedToLoad(String),
    CodeNotFound,
    FailedToCompile(CompilerError),
    /// The engine could not create the instance.
    FailedToInstantiate(String),
}

impl From<FunctionInvokeInternalRuntimeError> for FunctionInvokeError {
    fn from(err: FunctionInvokeInternalRuntimeError) -> (invoke: Self) {
        FunctionInvokeError::RuntimeError(err)
    }
}

impl vstd::std_specs::convert::FromSpecImpl<FunctionInvokeInternalRuntimeError> for FunctionInvokeError {
    open spec fn obeys_from_spec() -> bool {
        true
    }

    open spec fn from_spec(err: FunctionInvokeInternalRuntimeError) -> Self {
        FunctionInvokeError::RuntimeError(err)
    }
}

/// Why the runtime itself failed to execute a function; there is a mistake in it then.
#[derive(Clone, Copy, Debug, PartialEq, Eq, Structural)]
pub enum FunctionExecutionInternalRuntimeError {
    StoreFailedToLock,
}

/// Why a function that was invoked did not answer.
#[derive(Debug)]
pub enum FunctionExecutionError {
    RuntimeError(FunctionExecutionInternalRuntimeError),
    /// The runtime on the side of the function failed.
    FunctionRuntimeError,
    UserApplicationError { description: String },
    FunctionPanicked { message: String },
    /// The function has no handler of this name.
    HandlerNotDefined,
}

impl From<FunctionExecutionInternalRuntimeError> for FunctionExecutionError {
    fn from(err: FunctionExecutionInternalRuntimeError) -> (execution: Self) {
        FunctionExecutionError::RuntimeError(err)
    }
}

impl vstd::std_specs::convert::FromSpecImpl<FunctionExecutionInternalRuntimeError> for FunctionExecutionError {
    open spec fn obeys_from_spec() -> bool {
        true
    }

    open spec fn from_spec(err: FunctionExecutionInternalRuntimeError) -> Self {
        FunctionExecutionError::RuntimeError(err)
    }
}

/// Why a function did not answer, from the invocation to the execution.
#[derive(Debug)]
pub enum FunctionInvokeAndExecuteError {
    RuntimeError,
    FunctionRuntimeError,
    UserApplicationError { description: String },
    FunctionPanicked { message: String },
    HandlerNotDefined,
    DefinitionMissing(DefinitionError),
    CodeFailedToLoad(String),
    CodeNotFound,
    FailedToCompile(CompilerError),
    FailedToInstantiate(String),
}

impl From<FunctionInvokeError> for FunctionInvokeAndExecuteError {
    fn from(err: FunctionInvokeError) -> (both: Self) {
        match err {
            FunctionInvokeError::RuntimeError(_) => FunctionInvokeAndExecuteError::RuntimeError,
            FunctionInvokeError::DefinitionMissing(err) =>
                FunctionInvokeAndExecuteError::DefinitionMissing(err),
            FunctionInvokeError::CodeFailedToLoad(err) =>
                FunctionInvokeAndExecuteError::CodeFailedToLoad(err),
            FunctionInvokeError::CodeNotFound => FunctionInvokeAndExecuteError::CodeNotFound,
            FunctionInvokeError::FailedToCompile(err) =>
                FunctionInvokeAndExecuteError::FailedToCompile(err),
            FunctionInvokeError::FailedToInstantiate(err) =>
                FunctionInvokeAndExecuteError::FailedToInstantiate(err),
        }
    }
}

impl vstd::std_specs::convert::FromSpecImpl<FunctionInvokeError> for FunctionInvokeAndExecuteError {
    open spec fn obeys_from_spec() -> bool {
        true
    }

    open spec fn from_spec(err: FunctionInvokeError) -> Self {
        match err {
            FunctionInvokeError::RuntimeError(_) => FunctionInvokeAndExecuteError::RuntimeError,
            FunctionInvokeError::DefinitionMissing(err) =>
                FunctionInvokeAndExecuteError::DefinitionMissing(err),
            FunctionInvokeError::CodeFailedToLoad(err) =>
                FunctionInvokeAndExecuteError::CodeFailedToLoad(err),
            FunctionInvokeError::CodeNotFound => FunctionInvokeAndExecuteError::CodeNotFound,
            FunctionInvokeError::FailedToCompile(err) =>
                FunctionInvokeAndExecuteError::FailedToCompile(err),
            FunctionInvokeError::FailedToInstantiate(err) =>
                FunctionInvokeAndExecuteError::FailedToInstantiate(err),
        }
    }
}

impl From<FunctionExecutionError> for FunctionInvokeAndExecuteError {
    fn from(err: FunctionExecutionError) -> (both: Self) {
        match err {
            FunctionExecutionError::RuntimeError(_) => FunctionInvokeAndExecuteError::RuntimeError,
            FunctionExecutionError::FunctionRuntimeError =>
                FunctionInvokeAndExecuteError::FunctionRuntimeError,
            FunctionExecutionError::UserApplicationError { description } =>
                FunctionInvokeAndExecuteError::UserApplicationError { description },
            FunctionExecutionError::FunctionPanicked { message } =>
                FunctionInvokeAndExecuteError::FunctionPanicked { message },
            FunctionExecutionError::HandlerNotDefined =>
                FunctionInvokeAndExecuteError::HandlerNotDefined,
        }
    }
}

impl vstd::std_specs::convert::FromSpecImpl<FunctionExecutionError> for FunctionInvokeAndExecuteError {
    open spec fn obeys_from_spec() -> bool {
        true
    }

    open spec fn from_spec(err: FunctionExecutionError) -> Self {
        match err {
            FunctionExecutionError::RuntimeError(_) => FunctionInvokeAndExecuteError::RuntimeError,
            FunctionExecutionError::FunctionRuntimeError =>
                FunctionInvokeAndExecuteError::FunctionRuntimeError,
            FunctionExecutionError::UserApplicationError { description } =>
                FunctionInvokeAndExecuteError::UserApplicationError { description },
            FunctionExecutionError::FunctionPanicked { message } =>
                FunctionInvokeAndExecuteError::FunctionPanicked { message },
            FunctionExecutionError::HandlerNotDefined =>
                FunctionInvokeAndExecuteError::HandlerNotDefined,
        }
    }
}

/// What can go wrong around a function that is called through its exports.
#[derive(Debug)]
pub enum FxRuntimeError {
    ServiceNotFound,
    StorageInternalError { reason: String },
    ServiceInternalError { reason: String },
    ExecutionContextInitError { reason: String },
    ExecutionContextRuntimeError { reason: String },
    ServiceExecutionError { error: String },
    CompilationError { reason: String },
    RpcHandlerNotDefined,
    RpcHandlerIncompatibleType,
    ModuleCodeNotFound,
    DefinitionError { reason: String },
    ConfigurationError { reason: String },
    CronError { reason: String },
    StreamingError { reason: String },
    StreamNotFound,
    SerializationError { reason: String },
}

/// What a fault around a function is described as.
pub open spec fn runtime_error_message(err: FxRuntimeError) -> Seq<char> {
    match err {
        FxRuntimeError::ServiceNotFound => "service not found"@,
        FxRuntimeError::StorageInternalError { reason } => "internal storage error: "@ + reason@,
        FxRuntimeError::ServiceInternalError { reason } => "internal service error: "@ + reason@,
        FxRuntimeError::ExecutionContextInitError { reason } =>
            "failed to init execution context: "@ + reason@,
        FxRuntimeError::ExecutionContextRuntimeError { reason } =>
            "execution context runtime error: "@ + reason@,
        FxRuntimeError::ServiceExecutionError { error } => "service execution error: "@ + error@,
        FxRuntimeError::CompilationError { reason } => "compilation error: "@ + reason@,
        FxRuntimeError::RpcHandlerNotDefined => "rpc handler not defined"@,
        FxRuntimeError::RpcHandlerIncompatibleType => "rcp handler has incompatible type"@,
        FxRuntimeError::ModuleCodeNotFound => "storage does not contain code for this module"@,
        FxRuntimeError::DefinitionError { .. } => "definition error"@,
        FxRuntimeError::ConfigurationError { .. } => "configuration error"@,
        FxRuntimeError::CronError { reason } => "cron error: "@ + reason@,
        FxRuntimeError::StreamingError { reason } => "streaming error: "@ + reason@,
        FxRuntimeError::StreamNotFound => "stream not found"@,
        FxRuntimeError::SerializationError { .. } => "serialization error"@,
    }
}

fn told(words: &str, reason: &String) -> (message: String)
    ensures
        message@ == words@ + reason@,
{
    let mut message = owned(words);
    message.push_str(reason.as_str());
    message
}

impl FxRuntimeError {
    /// What the fault is described as.
    pub fn message(&self) -> (message: String)
        ensures
            message@ == runtime_error_message(*self),
    {
        match self {
            FxRuntimeError::ServiceNotFound => owned("service not found"),
            FxRuntimeError::StorageInternalError { reason } => told(
                "internal storage error: ",
                reason,
            ),
            FxRuntimeError::ServiceInternalError { reason } => told(
                "internal service error: ",
                reason,
            ),
            FxRuntimeError::ExecutionContextInitError { reason } => told(
                "failed to init execution context: ",
                reason,
            ),
            FxRuntimeError::ExecutionContextRuntimeError { reason } => told(
                "execution context runtime error: ",
                reason,
            ),
            FxRuntimeError::ServiceExecutionError { error } => told(
                "service execution error: ",
                error,
            ),
            FxRuntimeError::CompilationError { reason } => told("compilation error: ", reason),
            FxRuntimeError::RpcHandlerNotDefined => owned("rpc handler not defined"),
            FxRuntimeError::RpcHandlerIncompatibleType => owned(
                "rcp handler has incompatible type",
            ),
            FxRuntimeError::ModuleCodeNotFound => owned(
                "storage does not contain code for this module",
            ),
            FxRuntimeError::DefinitionError { .. } => owned("definition error"),
            FxRuntimeError::ConfigurationError { .. } => owned("configuration error"),
            FxRuntimeError::CronError { reason } => told("cron error: ", reason),
            FxRuntimeError::StreamingError { reason } => told("streaming error: ", reason),
            FxRuntimeError::StreamNotFound => owned("stream not found"),
            FxRuntimeError::SerializationError { .. } => owned("serialization error"),
        }
    }
}

/// Why there is no logger.
#[derive(Debug)]
pub enum LoggerError {
    FailedToCreate { reason: String },
}

/// Why a storage is not watched.
#[derive(Debug)]
pub enum KVWatchError {
    FailedToInit { reason: String },
    EventHandling { reason: String },
}

/// Why metrics were not collected or counted.
#[derive(Debug)]
pub enum MetricsError {
    FailedToCollect { reason: String },
    FailedToRegister { reason: String },
}

/// A failure is told with its reason at the end where it has one, after the words for its kind.
pub proof fn failures_end_with_their_reasons(err: FxRuntimeError, message: String)
    requires
        call_ensures(FxRuntimeError::message, (&err,), message),
    ensures
        err matches FxRuntimeError::StorageInternalError { reason } ==> message@
            == "internal storage error: "@ + reason@,
        err matches FxRuntimeError::ServiceInternalError { reason } ==> message@
            == "internal service error: "@ + reason@,
        err matches FxRuntimeError::ExecutionContextInitError { reason } ==> message@
            == "failed to init execution context: "@ + reason@,
        err matches FxRuntimeError::ExecutionContextRuntimeError { reason } ==> message@
            == "execution context runtime error: "@ + reason@,
        err matches FxRuntimeError::ServiceExecutionError { error } ==> message@
            == "service execution error: "@ + error@,
        err matches FxRuntimeError::CompilationError { reason } ==> message@
            == "compilation error: "@ + reason@,
        err matches FxRuntimeError::CronError { reason } ==> message@ == "cron error: "@ + reason@,
        err matches FxRuntimeError::StreamingError { reason } ==> message@ == "streaming error: "@
            + reason@,
        err is ServiceNotFound ==> message@ == "service not found"@,
        err is RpcHandlerNotDefined ==> message@ == "rpc handler not defined"@,
        err is StreamNotFound ==> message@ == "stream not found"@,
        err is ModuleCodeNotFound ==> message@ == "storage does not contain code for this module"@,
{
}

/// A failure to call and a failure while running stay what they were where both are told together, each
/// with its reason; failures of the host look alike.
pub proof fn failures_stay_what_they_were(
    invoke: FunctionInvokeError,
    execution: FunctionExecutionError,
)
    ensures
        ({
            let told = <FunctionInvokeAndExecuteError as vstd::std_specs::convert::FromSpec<
                FunctionInvokeError,
            >>::from_spec(invoke);
            &&& invoke is RuntimeError <==> told is RuntimeError
            &&& invoke is CodeNotFound <==> told is CodeNotFound
            &&& invoke matches FunctionInvokeError::DefinitionMissing(reason) ==> told
                == FunctionInvokeAndExecuteError::DefinitionMissing(reason)
            &&& invoke matches FunctionInvokeError::CodeFailedToLoad(reason) ==> told
                == FunctionInvokeAndExecuteError::CodeFailedToLoad(reason)
            &&& invoke matches FunctionInvokeError::FailedToCompile(reason) ==> told
                == FunctionInvokeAndExecuteError::FailedToCompile(reason)
            &&& invoke matches FunctionInvokeError::FailedToInstantiate(reason) ==> told
                == FunctionInvokeAndExecuteError::FailedToInstantiate(reason)
        }),
        ({
            let told = <FunctionInvokeAndExecuteError as vstd::std_specs::convert::FromSpec<
                FunctionExecutionError,
            >>::from_spec(execution);
            &&& execution is RuntimeError <==> told is RuntimeError
            &&& execution is FunctionRuntimeError <==> told is FunctionRuntimeError
            &&& execution is HandlerNotDefined <==> told is HandlerNotDefined
            &&& execution matches FunctionExecutionError::UserApplicationError { description }
                ==> told == (FunctionInvokeAndExecuteError::UserApplicationError { description })
            &&& execution matches FunctionExecutionError::FunctionPanicked { message } ==> told == (
            FunctionInvokeAndExecuteError::FunctionPanicked { message })
        }),
{
}

} // verus!
