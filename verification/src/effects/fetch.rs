//! The outcome of a request that a function sends.
use vstd::prelude::*;

verus! {

/// Why a request of a function failed.
#[derive(Clone, Copy, Debug, PartialEq, Eq, Structural)]
pub enum FetchResultError {
    /// failed to read request from function memory
    FailedToReadRequest,
    /// invalid request
    BadRequest,
    /// request body refers to a resource that the host does not have
    BodyHostResourceIdNotFound,
    /// connection failed
    ConnectionFailed,
    /// connection timeout
    ConnectionTimeout,
    /// response timeout
    ResponseTimeout,
    /// rpc target function not found
    FunctionNotFound,
    /// failed to create instance of rpc target function
    FunctionInstantiationError,
    /// rpc target function panicked
    FunctionPanicked,
    /// rpc target function stopped execution with unknown wasm error
    FunctionCrashed,
    /// rpc target function is busy handling other requests and cannot accept a new one
    FunctionBusy,
    /// rpc target function returned incorrect response
    FunctionIncorrectResponse,
    /// runtime is being shut down, new requests are not accepted
    RuntimeShutdown,
    /// internal runtime assertion error
    InternalRuntimeAssertionError,
    /// internal runtime timeout error
    InternalRuntimeTimeoutError,
}

/// Why a worker could not invoke a function.
#[derive(Clone, Copy, Debug, PartialEq, Eq, Structural)]
pub enum FunctionInvokeError {
    NotFound,
    FunctionPanicked,
    FunctionCrashed,
    FunctionBusy,
    FunctionIncorrectResponse,
    FunctionInstantiationError,
    RuntimeShutdown,
    InternalRuntimeAssertionError,
}

/// What the sender of a request is told when the function that it is for could not be invoked.
pub open spec fn fetch_error_of(err: FunctionInvokeError) -> FetchResultError {
    match err {
        FunctionInvokeError::NotFound => FetchResultError::FunctionNotFound,
        FunctionInvokeError::FunctionPanicked => FetchResultError::FunctionPanicked,
        FunctionInvokeError::FunctionCrashed => FetchResultError::FunctionCrashed,
        FunctionInvokeError::FunctionBusy => FetchResultError::FunctionBusy,
        FunctionInvokeError::FunctionIncorrectResponse =>
            FetchResultError::FunctionIncorrectResponse,
        FunctionInvokeError::FunctionInstantiationError =>
            FetchResultError::FunctionInstantiationError,
        FunctionInvokeError::RuntimeShutdown => FetchResultError::RuntimeShutdown,
        FunctionInvokeError::InternalRuntimeAssertionError =>
            FetchResultError::InternalRuntimeAssertionError,
    }
}

impl From<FunctionInvokeError> for FetchResultError {
    fn from(err: FunctionInvokeError) -> (out: Self) {
        match err {
            FunctionInvokeError::NotFound => FetchResultError::FunctionNotFound,
            FunctionInvokeError::FunctionPanicked => FetchResultError::FunctionPanicked,
            FunctionInvokeError::FunctionCrashed => FetchResultError::FunctionCrashed,
            FunctionInvokeError::FunctionBusy => FetchResultError::FunctionBusy,
            FunctionInvokeError::FunctionIncorrectResponse =>
                FetchResultError::FunctionIncorrectResponse,
            FunctionInvokeError::FunctionInstantiationError =>
                FetchResultError::FunctionInstantiationError,
            FunctionInvokeError::RuntimeShutdown => FetchResultError::RuntimeShutdown,
            FunctionInvokeError::InternalRuntimeAssertionError =>
                FetchResultError::InternalRuntimeAssertionError,
        }
    }
}

impl vstd::std_specs::convert::FromSpecImpl<FunctionInvokeError> for FetchResultError {
    open spec fn obeys_from_spec() -> bool {
        true
    }

    open spec fn from_spec(err: FunctionInvokeError) -> Self {
        fetch_error_of(err)
    }
}

/// The status line and headers of a response.
#[derive(Debug)]
pub struct ResponseParts {
    pub status: u16,
    pub headers: Vec<(String, String)>,
}

/// A response whose body is a resource of the host.
#[derive(Debug)]
pub struct FetchResultWithBodyResource {
    pub parts: ResponseParts,
    pub body: u64,
}

impl FetchResultWithBodyResource {
    pub fn new(parts: ResponseParts, body: u64) -> (result: Self)
        ensures
            result.parts == parts,
            result.body == body,
    {
        FetchResultWithBodyResource { parts, body }
    }
}

/// Why a body could not be read to its end.
#[derive(Clone, Copy, Debug, PartialEq, Eq, Structural)]
pub enum HttpStreamError {
    /// failed to read fetch response stream
    FetchResponseStreamError,
    /// failed to read http request body stream
    RequestBodyStreamError,
    /// failed to read the body that a function sends
    FunctionRequestBodyStreamError,
    /// failed to read the response of another function
    RpcResponseStreamError,
}

/// How an HTTP client reports that a request failed.
pub open spec fn client_error(timeout: bool, connect: bool) -> FetchResultError {
    if timeout && connect {
        FetchResultError::ConnectionTimeout
    } else if timeout {
        FetchResultError::ResponseTimeout
    } else {
        FetchResultError::ConnectionFailed
    }
}

/// What the sender of a request is told when the HTTP client failed: `timeout` where it ran out
/// of time, `connect` where it failed while connecting.
pub fn fetch_client_error(timeout: bool, connect: bool) -> (err: FetchResultError)
    ensures
        err == client_error(timeout, connect),
{
    if timeout && connect {
        FetchResultError::ConnectionTimeout
    } else if timeout {
        FetchResultError::ResponseTimeout
    } else {
        FetchResultError::ConnectionFailed
    }
}

/// A function that could not be called is told to the caller as the failure that it was.
pub proof fn failed_calls_are_told(err: FunctionInvokeError)
    ensures
        err is NotFound <==> fetch_error_of(err) is FunctionNotFound,
        err is FunctionPanicked <==> fetch_error_of(err) is FunctionPanicked,
        err is FunctionCrashed <==> fetch_error_of(err) is FunctionCrashed,
        err is FunctionBusy <==> fetch_error_of(err) is FunctionBusy,
        err is FunctionIncorrectResponse <==> fetch_error_of(err) is FunctionIncorrectResponse,
        err is FunctionInstantiationError <==> fetch_error_of(err) is FunctionInstantiationError,
        err is RuntimeShutdown <==> fetch_error_of(err) is RuntimeShutdown,
        err is InternalRuntimeAssertionError <==> fetch_error_of(
            err,
        ) is InternalRuntimeAssertionError,
{
}

/// Only a time that ran out is told as such, and as that of the connection exactly where it ran out
/// while connecting.
pub proof fn timeouts_are_told(timeout: bool, connect: bool, err: FetchResultError)
    requires
        call_ensures(fetch_client_error, (timeout, connect), err),
    ensures
        err is ConnectionTimeout <==> timeout && connect,
        err is ResponseTimeout <==> timeout && !connect,
        err is ConnectionFailed <==> !timeout,
{
}

} // verus!
