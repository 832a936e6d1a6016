//! A deployment: instances of one function with one configuration, and the way of a request
//! through them.
use vstd::prelude::*;

use crate::function::id::FunctionId;
use crate::function::instance::{
    FunctionInstanceInitError, FunctionResponsePollError, InvokeError,
};
use crate::resources::future;
use crate::resources::future::{FunctionBackgroundTask, FunctionResponseFuture};
use crate::resources::resource;
use crate::resources::resource::{FunctionResourceId, ResourceTable};
use crate::text;
use crate::text::{has_part, same_text};
use crate::web::HttpMethod;

verus! {

/// Why a function could not be deployed.
#[derive(Debug)]
pub enum DeploymentInitError {
    /// function requested import that fx runtime does not provide
    MissingImport,
    /// incompatible import type: was the function compiled with a different fx sdk version?
    IncompatibleImport { details: String },
    /// function does not provide export that fx runtime expects
    MissingExport,
    /// function does not provide memory export that fx runtime expects
    MissingMemory,
    /// failed to create function instance because of unknown instantiation error
    UnknownInstantiationError,
    /// internal runtime assertion error
    AssertionError,
}

/// The names under which the host offers its functions in the module `fx`, in the order in which
/// they are linked.
pub open spec fn import_names() -> Seq<Seq<char>> {
    seq![
        "fx_log"@,
        "fx_sql_exec"@,
        "fx_sql_batch"@,
        "fx_sql_migrate"@,
        "fx_sleep"@,
        "fx_random"@,
        "fx_time"@,
        "fx_blob_put"@,
        "fx_fetch"@,
        "fx_metrics_counter_register"@,
        "fx_metrics_counter_increment"@,
        "fx_metrics_gauge_update"@,
        "fx_env_len"@,
        "fx_env_get"@,
        "fx_kv_get"@,
        "fx_kv_delex_ifeq"@,
        "fx_kv_delex_result_future_poll"@,
        "fx_kv_delex_result_serialize"@,
        "fx_kv_subscribe"@,
        "fx_kv_publish"@,
        "fx_tasks_background_spawn"@,
        "fx_fetch_request_header_serialize"@,
        "fx_bytes_len"@,
        "fx_bytes_move"@,
        "fx_kv_subscription_stream_poll_next"@,
        "fx_kv_publish_result_future_poll"@,
        "fx_kv_publish_result_serialize"@,
        "fx_unit_future_poll"@,
        "fx_sql_query_result_future_poll"@,
        "fx_sql_query_result_serialize"@,
        "fx_sql_batch_result_future_poll"@,
        "fx_sql_batch_result_serialize"@,
        "fx_migration_result_future_poll"@,
        "fx_migration_result_serialize"@,
        "fx_fetch_result_future_poll"@,
        "fx_fetch_result_serialize"@,
        "fx_http_body_poll_frame"@,
        "fx_http_frame_serialize"@,
        "fx_blob_put_result_poll"@,
        "fx_blob_put_result_serialize"@,
    ]
}

/// The names under which the host offers its functions.
pub fn imported_functions() -> (names: Vec<&'static str>)
    ensures
        names@.len() == import_names().len(),
        forall|i: int| 0 <= i < names@.len() ==> (#[trigger] names@[i])@ == import_names()[i],
{
    vec![
        "fx_log",
        "fx_sql_exec",
        "fx_sql_batch",
        "fx_sql_migrate",
        "fx_sleep",
        "fx_random",
        "fx_time",
        "fx_blob_put",
        "fx_fetch",
        "fx_metrics_counter_register",
        "fx_metrics_counter_increment",
        "fx_metrics_gauge_update",
        "fx_env_len",
        "fx_env_get",
        "fx_kv_get",
        "fx_kv_delex_ifeq",
        "fx_kv_delex_result_future_poll",
        "fx_kv_delex_result_serialize",
        "fx_kv_subscribe",
        "fx_kv_publish",
        "fx_tasks_background_spawn",
        "fx_fetch_request_header_serialize",
        "fx_bytes_len",
        "fx_bytes_move",
        "fx_kv_subscription_stream_poll_next",
        "fx_kv_publish_result_future_poll",
        "fx_kv_publish_result_serialize",
        "fx_unit_future_poll",
        "fx_sql_query_result_future_poll",
        "fx_sql_query_result_serialize",
        "fx_sql_batch_result_future_poll",
        "fx_sql_batch_result_serialize",
        "fx_migration_result_future_poll",
        "fx_migration_result_serialize",
        "fx_fetch_result_future_poll",
        "fx_fetch_result_serialize",
        "fx_http_body_poll_frame",
        "fx_http_frame_serialize",
        "fx_blob_put_result_poll",
        "fx_blob_put_result_serialize",
    ]
}

/// Something that a module imports.
#[derive(Debug)]
pub struct ModuleImport {
    pub module: String,
    pub name: String,
    pub is_function: bool,
}

/// Whether an import gets a placeholder that fails when it is called: a function of a module that
/// is not the host's.
pub open spec fn is_placeholder(import: ModuleImport) -> bool {
    import.module@ != "fx"@ && import.is_function
}

/// The positions of the imports that get a placeholder.
pub open spec fn placeholders(imports: Seq<ModuleImport>) -> Seq<int>
    decreases imports.len(),
{
    if imports.len() == 0 {
        Seq::empty()
    } else if is_placeholder(imports.last()) {
        placeholders(imports.drop_last()).push(imports.len() - 1)
    } else {
        placeholders(imports.drop_last())
    }
}

/// The positions of the imports that get a placeholder.
pub fn placeholder_imports(imports: &Vec<ModuleImport>) -> (at: Vec<usize>)
    ensures
        at@.map_values(|i: usize| i as int) == placeholders(imports@),
{
    let mut at: Vec<usize> = Vec::new();
    let mut i: usize = 0;
    assert(at@.map_values(|i: usize| i as int) =~= placeholders(imports@.take(0)));
    while i < imports.len()
        invariant
            i <= imports@.len(),
            at@.map_values(|i: usize| i as int) == placeholders(imports@.take(i as int)),
        decreases imports@.len() - i,
    {
        let ghost before = at@;
        if !same_text(imports[i].module.as_str(), "fx") && imports[i].is_function {
            at.push(i);
        }
        proof {
            let next = imports@.take(i + 1);
            assert(next.drop_last() =~= imports@.take(i as int));
            assert(next.last() == imports@[i as int]);
            if is_placeholder(imports@[i as int]) {
                assert(at@.map_values(|i: usize| i as int) =~= before.map_values(
                    |i: usize| i as int,
                ).push(i as int));
            }
        }
        i = i + 1;
    }
    assert(imports@.take(imports@.len() as int) =~= imports@);
    at
}

/// Whether an error says why a module could not be linked.
pub open spec fn is_link_error(
    err: DeploymentInitError,
    unknown_import: bool,
    message: Seq<char>,
) -> bool {
    if unknown_import {
        err is MissingImport
    } else if text::contains_text(message, "incompatible import type"@) {
        err matches DeploymentInitError::IncompatibleImport { details } && details@ == message
    } else {
        err is UnknownInstantiationError
    }
}

/// Why a module could not be linked: `unknown_import` says that it imports something unknown,
/// `message` is what the engine says.
pub fn link_error(unknown_import: bool, message: String) -> (err: DeploymentInitError)
    ensures
        is_link_error(err, unknown_import, message@),
{
    if unknown_import {
        DeploymentInitError::MissingImport
    } else if has_part(message.as_str(), "incompatible import type") {
        DeploymentInitError::IncompatibleImport { details: message }
    } else {
        DeploymentInitError::UnknownInstantiationError
    }
}

/// Why a deployment failed when its first instance could not be made.
pub open spec fn init_error_of(err: FunctionInstanceInitError) -> DeploymentInitError {
    match err {
        FunctionInstanceInitError::MissingExport => DeploymentInitError::MissingExport,
        FunctionInstanceInitError::MissingMemory => DeploymentInitError::MissingMemory,
        FunctionInstanceInitError::UnknownError => DeploymentInitError::UnknownInstantiationError,
        FunctionInstanceInitError::InternalRuntimeAssertionError =>
            DeploymentInitError::AssertionError,
    }
}

impl From<FunctionInstanceInitError> for DeploymentInitError {
    fn from(err: FunctionInstanceInitError) -> (out: Self) {
        match err {
            FunctionInstanceInitError::MissingExport => DeploymentInitError::MissingExport,
            FunctionInstanceInitError::MissingMemory => DeploymentInitError::MissingMemory,
            FunctionInstanceInitError::UnknownError =>
                DeploymentInitError::UnknownInstantiationError,
            FunctionInstanceInitError::InternalRuntimeAssertionError =>
                DeploymentInitError::AssertionError,
        }
    }
}

impl vstd::std_specs::convert::FromSpecImpl<FunctionInstanceInitError> for DeploymentInitError {
    open spec fn obeys_from_spec() -> bool {
        true
    }

    open spec fn from_spec(err: FunctionInstanceInitError) -> Self {
        init_error_of(err)
    }
}

/// Why a deployment could not handle a request.
#[derive(Clone, Copy, Debug, PartialEq, Eq, Structural)]
pub enum FunctionDeploymentHandleRequestError {
    /// internal runtime assertion error
    AssertionError,
    /// internal timeout in runtime implementation
    RuntimeTimeout,
    /// function panicked
    FunctionPanicked,
    /// function stopped execution with unknown wasm trap
    FunctionCrashed,
    /// function busy handling other requests and cannot accept a new one
    FunctionBusy,
    /// function returned incorrect response
    FunctionIncorrectResponse,
    /// failed to create function instance
    FunctionInstantiationError,
}

pub open spec fn invoke_failure(err: InvokeError) -> FunctionDeploymentHandleRequestError {
    match err {
        InvokeError::Busy => FunctionDeploymentHandleRequestError::FunctionBusy,
        InvokeError::Panicked => FunctionDeploymentHandleRequestError::FunctionPanicked,
        InvokeError::Crashed => FunctionDeploymentHandleRequestError::FunctionCrashed,
    }
}

impl From<InvokeError> for FunctionDeploymentHandleRequestError {
    fn from(err: InvokeError) -> (out: Self) {
        match err {
            InvokeError::Busy => FunctionDeploymentHandleRequestError::FunctionBusy,
            InvokeError::Panicked => FunctionDeploymentHandleRequestError::FunctionPanicked,
            InvokeError::Crashed => FunctionDeploymentHandleRequestError::FunctionCrashed,
        }
    }
}

impl vstd::std_specs::convert::FromSpecImpl<InvokeError> for FunctionDeploymentHandleRequestError {
    open spec fn obeys_from_spec() -> bool {
        true
    }

    open spec fn from_spec(err: InvokeError) -> Self {
        invoke_failure(err)
    }
}

/// What a failed response makes of a request.
pub open spec fn response_failure(
    err: FunctionResponsePollError,
) -> FunctionDeploymentHandleRequestError {
    match err {
        FunctionResponsePollError::AssertionError =>
            FunctionDeploymentHandleRequestError::AssertionError,
        FunctionResponsePollError::FunctionPanicked =>
            FunctionDeploymentHandleRequestError::FunctionPanicked,
        FunctionResponsePollError::FunctionCrashed =>
            FunctionDeploymentHandleRequestError::FunctionCrashed,
        _ => FunctionDeploymentHandleRequestError::FunctionIncorrectResponse,
    }
}

/// A request that waits in the store of an instance to be read by the function.
pub struct FetchRequestHeader {
    pub method: HttpMethod,
    pub uri: String,
    pub headers: Vec<(String, String)>,
    pub body: Option<u64>,
}

/// A deployment; `I` is an instance of the function.
pub struct FunctionDeployment<I> {
    pub function_id: FunctionId,
    pub instance: I,
    pub has_panicked: bool,
}

/// How the linking of a module went.
#[derive(Debug)]
pub enum Linked {
    /// One of the functions of the host was not taken, though no two have the same name.
    HostFunctionRefused,
    /// A placeholder was not taken.
    PlaceholderRefused,
    /// The module does not go with what it was linked with: `unknown_import` says that it imports
    /// something unknown, `message` is what the engine says.
    Failed { unknown_import: bool, message: String },
    Done,
}

/// Why a module that was not linked could not be deployed.
pub open spec fn is_link_failure(err: DeploymentInitError, linked: Linked) -> bool {
    match linked {
        Linked::HostFunctionRefused => err is AssertionError,
        Linked::PlaceholderRefused => err is UnknownInstantiationError,
        Linked::Failed { unknown_import, message } => is_link_error(err, unknown_import, message@),
        Linked::Done => false,
    }
}

impl<I> FunctionDeployment<I> {
    /// A deployment with its first instance, which is made of a module that was linked; `made` is
    /// what came of that.
    pub fn new(
        function_id: FunctionId,
        linked: Linked,
        made: Result<I, FunctionInstanceInitError>,
    ) -> (deployment: Result<Self, DeploymentInitError>)
        ensures
            match deployment {
                Ok(deployment) => linked is Done && (made matches Ok(instance)
                    && deployment.instance == instance) && deployment.function_id == function_id
                    && !deployment.has_panicked,
                Err(err) => is_link_failure(err, linked) || (linked is Done && (made
                    matches Err(fault) && err == init_error_of(fault))),
            },
    {
        match linked {
            Linked::HostFunctionRefused => Err(DeploymentInitError::AssertionError),
            Linked::PlaceholderRefused => Err(DeploymentInitError::UnknownInstantiationError),
            Linked::Failed { unknown_import, message } => Err(link_error(unknown_import, message)),
            Linked::Done => match made {
                Ok(instance) => Ok(
                    FunctionDeployment { function_id, instance, has_panicked: false },
                ),
                Err(fault) => Err(DeploymentInitError::from(fault)),
            },
        }
    }
}

/// How far a request has come.
#[derive(Clone, Copy, Debug, PartialEq, Eq, Structural)]
pub enum RequestHandleProgress {
    Init,
    InstanceReady,
    HttpBodyReady,
    HttpTriggerInvoked,
    BackgroundTasksSpawned,
    ResultFutureCreated,
}

/// Whether an instance is marked once a function was invoked.
pub open spec fn mark_after_invoke(
    has_panicked: bool,
    invoked: Result<FunctionResourceId, InvokeError>,
) -> bool {
    has_panicked || invoked == Err::<FunctionResourceId, InvokeError>(InvokeError::Panicked)
}

/// A request on its way through a deployment, stage by stage. Each stage is told what the host
/// found when it did what the stage before had asked for.
pub struct RequestHandleFuture {
    pub progress: RequestHandleProgress,
}

impl RequestHandleFuture {
    pub fn new() -> (request: Self)
        ensures
            request.progress == RequestHandleProgress::Init,
    {
        RequestHandleFuture { progress: RequestHandleProgress::Init }
    }

    /// Whether an instance has to be made before the request can be handled: where the one there
    /// is has panicked.
    pub fn needs_instance<I>(&self, deployment: &FunctionDeployment<I>) -> (needed: bool)
        ensures
            needed == deployment.has_panicked,
    {
        deployment.has_panicked
    }

    /// The instance is there: `made` is the new one where one was needed. It takes the place of
    /// the old one, unmarked.
    pub fn instance_ready<I>(
        &mut self,
        deployment: &mut FunctionDeployment<I>,
        made: Option<Result<I, FunctionInstanceInitError>>,
    ) -> (ready: Result<(), FunctionDeploymentHandleRequestError>)
        requires
            old(self).progress == RequestHandleProgress::Init,
            made is Some == old(deployment).has_panicked,
        ensures
            final(deployment).function_id == old(deployment).function_id,
            match made {
                None => ready is Ok && *final(deployment) == *old(deployment),
                Some(Ok(instance)) => ready is Ok && final(deployment).instance == instance
                    && !final(deployment).has_panicked,
                Some(Err(_)) => ready == Err::<(), _>(
                    FunctionDeploymentHandleRequestError::FunctionInstantiationError,
                ) && *final(deployment) == *old(deployment),
            },
            final(self).progress == (if ready is Ok {
                RequestHandleProgress::InstanceReady
            } else {
                RequestHandleProgress::Init
            }),
    {
        match made {
            None => {},
            Some(Ok(instance)) => {
                deployment.instance = instance;
                deployment.has_panicked = false;
            },
            Some(Err(_)) => return Err(
                FunctionDeploymentHandleRequestError::FunctionInstantiationError,
            ),
        }
        self.progress = RequestHandleProgress::InstanceReady;
        Ok(())
    }

    /// Puts the request into the store of the instance, its body first; `locked` says whether the
    /// store was free in time.
    pub fn store_request<B>(
        &mut self,
        locked: bool,
        fetch_request_headers: &mut ResourceTable<FetchRequestHeader>,
        http_bodies: &mut ResourceTable<B>,
        header: FetchRequestHeader,
        body: Option<B>,
    ) -> (stored: Result<u64, FunctionDeploymentHandleRequestError>)
        requires
            old(self).progress == RequestHandleProgress::InstanceReady,
            old(fetch_request_headers).wf(),
            locked ==> old(fetch_request_headers).has_room(),
            old(http_bodies).wf(),
            locked && body is Some ==> old(http_bodies).has_room(),
        ensures
            final(fetch_request_headers).wf(),
            final(http_bodies).wf(),
            stored is Ok == locked,
            final(self).progress == (if locked {
                RequestHandleProgress::HttpBodyReady
            } else {
                RequestHandleProgress::InstanceReady
            }),
            match stored {
                Err(err) => err == FunctionDeploymentHandleRequestError::RuntimeTimeout
                    && *final(fetch_request_headers) == *old(fetch_request_headers) && *final(
                    http_bodies
                ) == *old(http_bodies),
                Ok(id) => {
                    let entry = final(fetch_request_headers)@[id];
                    &&& !old(fetch_request_headers)@.dom().contains(id)
                    &&& resource::slot_key(id) == id
                    &&& final(fetch_request_headers)@ == old(fetch_request_headers)@.insert(
                        id,
                        entry,
                    )
                    &&& entry.method == header.method && entry.uri == header.uri && entry.headers
                        == header.headers
                    &&& (match body {
                        None => entry.body is None && *final(http_bodies) == *old(http_bodies),
                        Some(b) => entry.body is Some && !old(http_bodies)@.dom().contains(
                            entry.body->0,
                        ) && resource::slot_key(entry.body->0) == entry.body->0 && final(http_bodies)@ == old(http_bodies)@.insert(entry.body->0, b),
                    })
                },
            },
    {
        if !locked {
            return Err(FunctionDeploymentHandleRequestError::RuntimeTimeout);
        }
        let body_id: Option<u64> = match body {
            None => None,
            Some(body) => Some(http_bodies.insert(body)),
        };
        let id: u64 = fetch_request_headers.insert(
            FetchRequestHeader {
                method: header.method,
                uri: header.uri,
                headers: header.headers,
                body: body_id,
            },
        );
        self.progress = RequestHandleProgress::HttpBodyReady;
        Ok(id)
    }

    /// The handler of the function was called: it has given the response to wait for, or failed.
    /// A panic marks the instance.
    pub fn invoked(
        &self,
        has_panicked: &mut bool,
        invoked: Result<FunctionResourceId, InvokeError>,
    ) -> (response: Result<FunctionResponseFuture, FunctionDeploymentHandleRequestError>)
        requires
            self.progress == RequestHandleProgress::HttpBodyReady,
        ensures
            *final(has_panicked) == mark_after_invoke(*old(has_panicked), invoked),
            match invoked {
                Ok(resource_id) => response == Ok::<_, FunctionDeploymentHandleRequestError>(
                    (FunctionResponseFuture { resource_id }),
                ),
                Err(err) => response == Err::<FunctionResponseFuture, _>(invoke_failure(err)),
            },
    {
        match invoked {
            Ok(resource_id) => Ok(FunctionResponseFuture::new(resource_id)),
            Err(InvokeError::Panicked) => {
                *has_panicked = true;
                Err(FunctionDeploymentHandleRequestError::FunctionPanicked)
            },
            Err(err) => Err(FunctionDeploymentHandleRequestError::from(err)),
        }
    }

    /// The wait for the response is over.
    pub fn responded(&mut self)
        requires
            old(self).progress == RequestHandleProgress::HttpBodyReady,
        ensures
            final(self).progress == RequestHandleProgress::HttpTriggerInvoked,
    {
        self.progress = RequestHandleProgress::HttpTriggerInvoked;
    }

    /// Hands out the background tasks that the function has spawned meanwhile, in their order.
    pub fn spawn_background_tasks(
        &mut self,
        tasks_background: &mut Vec<FunctionResourceId>,
    ) -> (tasks: Vec<FunctionBackgroundTask>)
        requires
            old(self).progress == RequestHandleProgress::HttpTriggerInvoked,
        ensures
            final(self).progress == RequestHandleProgress::BackgroundTasksSpawned,
            final(tasks_background)@.len() == 0,
            tasks@ == old(tasks_background)@.map_values(
                |resource_id: FunctionResourceId| FunctionBackgroundTask { resource_id },
            ),
    {
        let ghost whole = tasks_background@.map_values(
            |resource_id: FunctionResourceId| FunctionBackgroundTask { resource_id },
        );
        let mut tasks: Vec<FunctionBackgroundTask> = Vec::new();
        let mut i: usize = 0;
        while i < tasks_background.len()
            invariant
                tasks_background@ == old(tasks_background)@,
                whole == tasks_background@.map_values(
                    |resource_id: FunctionResourceId| FunctionBackgroundTask { resource_id },
                ),
                i <= tasks_background@.len(),
                tasks@ == whole.take(i as int),
            decreases tasks_background@.len() - i,
        {
            tasks.push(FunctionBackgroundTask::new(tasks_background[i]));
            assert(whole.take(i + 1) =~= whole.take(i as int).push(whole[i as int]));
            i = i + 1;
        }
        assert(whole.take(whole.len() as int) =~= whole);
        tasks_background.clear();
        self.progress = RequestHandleProgress::BackgroundTasksSpawned;
        tasks
    }

    /// What the request is answered.
    pub fn finish<R>(&mut self, result: Result<R, FunctionResponsePollError>) -> (answer: Result<
        R,
        FunctionDeploymentHandleRequestError,
    >)
        requires
            old(self).progress == RequestHandleProgress::BackgroundTasksSpawned,
        ensures
            final(self).progress == RequestHandleProgress::ResultFutureCreated,
            match result {
                Ok(response) => answer == Ok::<_, FunctionDeploymentHandleRequestError>(response),
                Err(err) => answer == Err::<R, _>(response_failure(err)),
            },
    {
        self.progress = RequestHandleProgress::ResultFutureCreated;
        match result {
            Ok(response) => Ok(response),
            Err(FunctionResponsePollError::AssertionError) => Err(
                FunctionDeploymentHandleRequestError::AssertionError,
            ),
            Err(FunctionResponsePollError::FunctionPanicked) => Err(
                FunctionDeploymentHandleRequestError::FunctionPanicked,
            ),
            Err(FunctionResponsePollError::FunctionCrashed) => Err(
                FunctionDeploymentHandleRequestError::FunctionCrashed,
            ),
            Err(_) => Err(FunctionDeploymentHandleRequestError::FunctionIncorrectResponse),
        }
    }
}

/// A request that is answered with a panic has marked its instance, whether the function
/// panicked when it was invoked or when its response was waited for; the next request then needs
/// a new instance.
pub proof fn panics_mark_the_instance(
    has_panicked: bool,
    invoked: Result<FunctionResourceId, InvokeError>,
    response: FunctionResponsePollError,
)
    ensures
        invoked matches Err(err) ==> (invoke_failure(err)
            == FunctionDeploymentHandleRequestError::FunctionPanicked ==> mark_after_invoke(
            has_panicked,
            invoked,
        )),
        response_failure(response) == FunctionDeploymentHandleRequestError::FunctionPanicked ==>
            future::response_error_is_fatal(response),
        response_failure(response) == FunctionDeploymentHandleRequestError::FunctionCrashed ==>
            future::response_error_is_fatal(response),
        has_panicked ==> mark_after_invoke(has_panicked, invoked),
{
}

proof fn lemma_placeholders(imports: Seq<ModuleImport>)
    ensures
        forall|i: int, j: int|
            0 <= i < j < placeholders(imports).len() ==> placeholders(imports)[i] < placeholders(
                imports,
            )[j],
        forall|k: int| #[trigger]
            placeholders(imports).contains(k) <==> 0 <= k < imports.len() && imports[k].is_function
                && imports[k].module@ != "fx"@,
    decreases imports.len(),
{
    if imports.len() > 0 {
        let rest = imports.drop_last();
        lemma_placeholders(rest);
        let last = imports.len() - 1;
        let before = placeholders(rest);
        let whole = placeholders(imports);
        assert forall|k: int| #[trigger] whole.contains(k) <==> 0 <= k < imports.len()
            && imports[k].is_function && imports[k].module@ != "fx"@ by {
            if 0 <= k < last {
                assert(rest[k] == imports[k]);
            }
            assert(before.contains(k) ==> 0 <= k < last);
            if is_placeholder(imports.last()) {
                assert(whole == before.push(last));
                if whole.contains(k) {
                    let at = whole.index_of(k);
                    if at < before.len() {
                        assert(before[at] == k);
                        assert(before.contains(k));
                    }
                }
                if before.contains(k) {
                    let at = before.index_of(k);
                    assert(whole[at] == k);
                }
                assert(whole[before.len() as int] == last);
            }
        }
        assert forall|i: int, j: int| 0 <= i < j < whole.len() implies whole[i] < whole[j] by {
            if j == before.len() {
                assert(before.contains(before[i]));
            }
        }
    }
}

/// The imports that get a placeholder are the functions of other modules than that of the host, each
/// once and in their order.
pub proof fn strange_functions_get_placeholders(imports: &Vec<ModuleImport>, at: Vec<usize>)
    requires
        call_ensures(placeholder_imports, (imports,), at),
    ensures
        forall|i: int, j: int| 0 <= i < j < at@.len() ==> #[trigger] at@[i] < #[trigger] at@[j],
        forall|k: usize| #[trigger]
            at@.contains(k) <==> k < imports@.len() && imports@[k as int].is_function
                && imports@[k as int].module@ != "fx"@,
{
    lemma_placeholders(imports@);
    let places = at@.map_values(|i: usize| i as int);
    assert forall|i: int, j: int| 0 <= i < j < at@.len() implies #[trigger] at@[i]
        < #[trigger] at@[j] by {
        assert(places[i] < places[j]);
    }
    assert forall|k: usize| #[trigger] at@.contains(k) <==> k < imports@.len()
        && imports@[k as int].is_function && imports@[k as int].module@ != "fx"@ by {
        if at@.contains(k) {
            let i = at@.index_of(k);
            assert(places[i] == k as int);
            assert(places.contains(k as int));
        }
        if places.contains(k as int) {
            let i = places.index_of(k as int);
            assert(at@[i] == k);
        }
        assert(placeholders(imports@).contains(k as int) <==> places.contains(k as int));
    }
}

/// A failure to link is told by its message where it is about types, with that message, and by what was
/// missing else.
pub proof fn link_failures_are_told_apart(
    unknown_import: bool,
    message: String,
    err: DeploymentInitError,
    before: Seq<char>,
    after: Seq<char>,
)
    requires
        call_ensures(link_error, (unknown_import, message), err),
    ensures
        unknown_import <==> err is MissingImport,
        !unknown_import && message@ == before + "incompatible import type"@ + after ==> err is
            IncompatibleImport,
        err matches DeploymentInitError::IncompatibleImport { details } ==> details@ == message@
            && text::contains_text(message@, "incompatible import type"@),
        err is MissingImport || err is IncompatibleImport || err is UnknownInstantiationError,
{
    if message@ == before + "incompatible import type"@ + after {
        let part = "incompatible import type"@;
        let at = before.len() as int;
        assert(message@.subrange(at, at + part.len()) =~= part);
        assert(text::occurs_at(message@, part, at));
    }
}

/// A function is deployed exactly where it could be linked and its instance could be made; it then has
/// that instance and has not panicked.
pub proof fn deployed_functions_are_whole<I>(
    function_id: FunctionId,
    linked: Linked,
    made: Result<I, FunctionInstanceInitError>,
    deployment: Result<FunctionDeployment<I>, DeploymentInitError>,
)
    requires
        call_ensures(FunctionDeployment::<I>::new, (function_id, linked, made), deployment),
    ensures
        deployment is Ok <==> linked is Done && made is Ok,
        deployment is Ok ==> deployment->Ok_0.instance == made->Ok_0
            && deployment->Ok_0.function_id@ == function_id@ && !deployment->Ok_0.has_panicked,
        linked is HostFunctionRefused ==> deployment->Err_0 is AssertionError,
        linked is PlaceholderRefused ==> deployment->Err_0 is UnknownInstantiationError,
        linked is Done && made is Err ==> (made->Err_0 is MissingExport
            <==> deployment->Err_0 is MissingExport) && (made->Err_0 is MissingMemory
            <==> deployment->Err_0 is MissingMemory) && (made->Err_0 is UnknownError
            <==> deployment->Err_0 is UnknownInstantiationError) && (
        made->Err_0 is InternalRuntimeAssertionError <==> deployment->Err_0 is AssertionError),
{
}

/// A request is kept with its own method, address, headers and body, under numbers under which nothing
/// was kept before; where nothing could be kept, nothing changes.
pub proof fn requests_are_kept_whole<B>(
    locked: bool,
    header: FetchRequestHeader,
    body: Option<B>,
    stored: Result<u64, FunctionDeploymentHandleRequestError>,
    other: u64,
)
    ensures
        forall|
            future: &mut RequestHandleFuture,
            headers: &mut ResourceTable<FetchRequestHeader>,
            bodies: &mut ResourceTable<B>,
        | #[trigger]
            call_ensures(
                RequestHandleFuture::store_request::<B>,
                (future, locked, headers, bodies, header, body),
                stored,
            ) ==> {
                &&& stored is Ok <==> locked
                &&& stored is Err ==> stored->Err_0 is RuntimeTimeout && *final(headers) == *headers
                    && *final(bodies) == *bodies && final(future).progress is InstanceReady
                &&& stored is Ok ==> {
                    let kept = final(headers)@[stored->Ok_0];
                    &&& final(future).progress is HttpBodyReady
                    &&& !headers@.dom().contains(stored->Ok_0)
                    &&& final(headers)@.dom().contains(stored->Ok_0)
                    &&& kept.method == header.method
                    &&& kept.uri@ == header.uri@
                    &&& kept.headers@ == header.headers@
                    &&& body is None <==> kept.body is None
                    &&& body is Some ==> !bodies@.dom().contains(kept.body->0)
                        && final(bodies)@.dom().contains(kept.body->0)
                        && final(bodies)@[kept.body->0] == body->0
                    &&& headers@.dom().contains(other) ==> final(headers)@.dom().contains(other)
                        && final(headers)@[other] == headers@[other]
                    &&& bodies@.dom().contains(other) ==> final(bodies)@.dom().contains(other)
                        && final(bodies)@[other] == bodies@[other]
                }
            },
{
}

/// The tasks that a function left behind are all run, in the order in which it left them, and none is
/// left.
pub proof fn background_tasks_are_all_run(tasks: Vec<FunctionBackgroundTask>)
    ensures
        forall|future: &mut RequestHandleFuture, left: &mut Vec<FunctionResourceId>| #[trigger]
            call_ensures(RequestHandleFuture::spawn_background_tasks, (future, left), tasks) ==> {
                &&& tasks@.len() == left@.len()
                &&& forall|i: int|
                    0 <= i < left@.len() ==> (#[trigger] tasks@[i]).resource_id == left@[i]
                &&& final(left)@.len() == 0
                &&& final(future).progress is BackgroundTasksSpawned
            },
{
}

/// What a function answered is the answer, and each way in which it failed is told as what it was; a
/// response that cannot be read is told as incorrect.
pub proof fn answers_and_failures_are_told<R>(
    result: Result<R, FunctionResponsePollError>,
    answer: Result<R, FunctionDeploymentHandleRequestError>,
)
    ensures
        forall|future: &mut RequestHandleFuture| #[trigger]
            call_ensures(RequestHandleFuture::finish::<R>, (future, result), answer) ==> {
                &&& answer is Ok <==> result is Ok
                &&& result is Ok ==> answer->Ok_0 == result->Ok_0
                &&& result is Err ==> {
                    let err = answer->Err_0;
                    &&& result->Err_0 is AssertionError <==> err is AssertionError
                    &&& result->Err_0 is FunctionPanicked <==> err is FunctionPanicked
                    &&& result->Err_0 is FunctionCrashed <==> err is FunctionCrashed
                    &&& result->Err_0 is AbiError || result->Err_0 is FailedToDeserialize
                        || result->Err_0 is HostResourceNotFound
                        || result->Err_0 is InvalidStatusCode || result->Err_0 is InvalidHeaders
                        <==> err is FunctionIncorrectResponse
                }
                &&& final(future).progress is ResultFutureCreated
            },
{
}

/// A call gives the response under the number that the function gave, or fails as the call failed; the
/// instance counts as broken afterwards exactly where it did before or where the function panicked.
pub proof fn called_functions_answer_or_fail(
    future: RequestHandleFuture,
    invoked: Result<FunctionResourceId, InvokeError>,
    response: Result<FunctionResponseFuture, FunctionDeploymentHandleRequestError>,
)
    ensures
        forall|has_panicked: &mut bool| #[trigger]
            call_ensures(
                RequestHandleFuture::invoked,
                (&future, has_panicked, invoked),
                response,
            ) ==> {
                &&& invoked is Ok <==> response is Ok
                &&& invoked is Ok ==> response->Ok_0.resource_id == invoked->Ok_0
                &&& invoked is Err ==> (invoked->Err_0 is Busy <==> response->Err_0 is FunctionBusy)
                    && (invoked->Err_0 is Panicked <==> response->Err_0 is FunctionPanicked) && (
                invoked->Err_0 is Crashed <==> response->Err_0 is FunctionCrashed)
                &&& *final(has_panicked) <==> *has_panicked || (invoked is Err
                    && invoked->Err_0 is Panicked)
            },
{
}

/// A broken instance is replaced by the new one before the next request, and one that is not broken is
/// kept.
pub proof fn broken_instances_are_replaced<I>(
    made: Option<Result<I, FunctionInstanceInitError>>,
    ready: Result<(), FunctionDeploymentHandleRequestError>,
)
    ensures
        forall|future: &mut RequestHandleFuture, deployment: &mut FunctionDeployment<I>| #[trigger]
            call_ensures(
                RequestHandleFuture::instance_ready::<I>,
                (future, deployment, made),
                ready,
            ) ==> {
                &&& ready is Ok <==> !(made is Some && made->0 is Err)
                &&& made is None ==> *final(deployment) == *deployment
                &&& made is Some && made->0 is Ok ==> final(deployment).instance == made->0->Ok_0
                    && !final(deployment).has_panicked
                &&& ready is Err ==> ready->Err_0 is FunctionInstantiationError
                    && *final(deployment) == *deployment && final(future).progress is Init
                &&& ready is Ok ==> final(future).progress is InstanceReady
                &&& final(deployment).function_id == deployment.function_id
            },
{
}

} // verus!
