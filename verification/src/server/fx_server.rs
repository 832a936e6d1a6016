//! What a server starts with: its threads, the cores that they are bound to, and where it keeps
//! its state.
use vstd::prelude::*;

use crate::definitions::config::{BlobConfig, LoggerConfig, ServerConfig};
use crate::definitions::monitor;
use crate::definitions::monitor::join_path;

verus! {

/// How many workers a server has that is not told how many.
pub const DEFAULT_WORKERS: usize = 4;

/// Why a server did not start.
#[derive(Clone, Copy, Debug, PartialEq, Eq, Structural)]
pub enum StartError {
    /// failed to init runtime because of internal error
    InternalInitError,
}

/// Why a function was not deployed, as the management thread reports it.
#[derive(Clone, Copy, Debug, PartialEq, Eq, Structural)]
pub enum DeployFunctionError {
    CompileError,
}

/// Why a function was not deployed.
#[derive(Clone, Copy, Debug, PartialEq, Eq, Structural)]
pub enum DeployError {
    /// failed to deploy function because runtime is being shut down
    RuntimeShutdown,
    /// failed to deploy function because failed to compile wasm module
    CompileError,
}

impl From<DeployFunctionError> for DeployError {
    fn from(err: DeployFunctionError) -> (deploy: Self) {
        match err {
            DeployFunctionError::CompileError => DeployError::CompileError,
        }
    }
}

impl vstd::std_specs::convert::FromSpecImpl<DeployFunctionError> for DeployError {
    open spec fn obeys_from_spec() -> bool {
        true
    }

    open spec fn from_spec(err: DeployFunctionError) -> Self {
        match err {
            DeployFunctionError::CompileError => DeployError::CompileError,
        }
    }
}

/// What became of a deployment: `sent` tells whether the management thread took the request,
/// `reply` is what it answered, if it did.
pub fn deploy_outcome(sent: bool, reply: Option<Result<(), DeployFunctionError>>) -> (deployed:
    Result<(), DeployError>)
    ensures
        deployed == (match reply {
            Some(Ok(())) if sent => Ok::<(), _>(()),
            Some(Err(DeployFunctionError::CompileError)) if sent => Err(DeployError::CompileError),
            _ => Err(DeployError::RuntimeShutdown),
        }),
{
    if !sent {
        return Err(DeployError::RuntimeShutdown);
    }
    match reply {
        Some(Ok(())) => Ok(()),
        Some(Err(err)) => Err(DeployError::from(err)),
        None => Err(DeployError::RuntimeShutdown),
    }
}

/// What is known of the processors of the machine.
#[derive(Debug)]
pub struct CpuInfo {
    pub logical_cores: usize,
    pub processor_ids: Vec<usize>,
}

/// How many threads of a kind a server starts: as many as it has workers, but no more than the
/// machine has cores.
pub open spec fn threads(workers: Option<usize>, cpu: Option<CpuInfo>) -> usize {
    let target = match workers {
        Some(n) => n,
        None => DEFAULT_WORKERS,
    };
    match cpu {
        Some(cpu) => if cpu.logical_cores < target {
            cpu.logical_cores
        } else {
            target
        },
        None => target,
    }
}

/// The number of threads of a kind.
pub fn thread_count(workers: Option<usize>, cpu: &Option<CpuInfo>) -> (count: usize)
    ensures
        count == threads(workers, *cpu),
{
    let target: usize = match workers {
        Some(n) => n,
        None => DEFAULT_WORKERS,
    };
    match cpu {
        Some(cpu) => if cpu.logical_cores < target {
            cpu.logical_cores
        } else {
            target
        },
        None => target,
    }
}

/// The core that each thread is bound to: the first ones of the machine, or none where nothing is
/// known of it. A thread that no core is left for is not started.
pub open spec fn cores(count: usize, cpu: Option<CpuInfo>) -> Seq<Option<usize>> {
    match cpu {
        Some(cpu) => Seq::new(
            if count <= cpu.processor_ids@.len() {
                count as nat
            } else {
                cpu.processor_ids@.len()
            },
            |i: int| Some(cpu.processor_ids@[i]),
        ),
        None => Seq::new(count as nat, |i: int| None),
    }
}

/// The core that each of the started threads is bound to.
pub fn thread_cores(count: usize, cpu: &Option<CpuInfo>) -> (bound: Vec<Option<usize>>)
    ensures
        bound@ == cores(count, *cpu),
{
    let mut bound: Vec<Option<usize>> = Vec::new();
    let mut i: usize = 0;
    match cpu {
        Some(cpu) => {
            while i < count && i < cpu.processor_ids.len()
                invariant
                    i <= count,
                    i <= cpu.processor_ids@.len(),
                    bound@ =~= Seq::new(i as nat, |j: int| Some(cpu.processor_ids@[j])),
                decreases count - i,
            {
                bound.push(Some(cpu.processor_ids[i]));
                i = i + 1;
            }
        },
        None => {
            while i < count
                invariant
                    i <= count,
                    bound@ =~= Seq::new(i as nat, |j: int| None::<usize>),
                decreases count - i,
            {
                bound.push(None);
                i = i + 1;
            }
        },
    }
    assert(bound@ =~= cores(count, *cpu));
    bound
}

/// However many workers a server is to have, no more threads of a kind are started than that, and
/// no more than the machine has cores; where it has a core for each, or nothing is known of it,
/// all of them are.
pub proof fn threads_fit_the_machine(workers: Option<usize>, cpu: Option<CpuInfo>)
    ensures
        workers matches Some(n) ==> cores(threads(workers, cpu), cpu).len() <= n,
        workers is None ==> cores(threads(workers, cpu), cpu).len() <= DEFAULT_WORKERS,
        cpu matches Some(known) ==> cores(threads(workers, cpu), cpu).len()
            <= known.logical_cores && cores(threads(workers, cpu), cpu).len()
            <= known.processor_ids@.len(),
        cpu is None ==> cores(threads(workers, cpu), cpu).len() == threads(workers, cpu),
        cpu matches Some(known) ==> known.processor_ids@.len() >= known.logical_cores ==> cores(
            threads(workers, cpu),
            cpu,
        ).len() == threads(workers, cpu),
{
}

/// Why the thread of the schedules does not start.
#[derive(Clone, Copy, Debug, PartialEq, Eq, Structural)]
pub enum CronSkipReason {
    /// expected config path to be set
    NoConfigPath,
    /// failed to get fx root dir based on config path
    NoRootDirectory,
}

/// Where the runs of the schedules are recorded.
#[derive(Debug)]
pub enum CronDatabaseLocation {
    InMemory,
    File(String),
}

/// Where the runs of the schedules are recorded: in memory, or in a file below the directory that
/// holds the configuration. `root_dir` is that directory, where the path of the configuration has
/// one.
pub fn cron_database_location(
    cron_data_path: Option<&str>,
    config_path: Option<&str>,
    root_dir: Option<&str>,
) -> (location: Result<CronDatabaseLocation, CronSkipReason>)
    ensures
        match location {
            Ok(CronDatabaseLocation::InMemory) => cron_data_path is None,
            Ok(CronDatabaseLocation::File(path)) => cron_data_path is Some && config_path is Some
                && root_dir is Some && path@ == monitor::joined(
                root_dir->0@,
                cron_data_path->0@,
            ),
            Err(CronSkipReason::NoConfigPath) => cron_data_path is Some && config_path is None,
            Err(CronSkipReason::NoRootDirectory) => cron_data_path is Some && config_path is Some
                && root_dir is None,
        },
{
    match cron_data_path {
        None => Ok(CronDatabaseLocation::InMemory),
        Some(path) => {
            if config_path.is_none() {
                return Err(CronSkipReason::NoConfigPath);
            }
            match root_dir {
                None => Err(CronSkipReason::NoRootDirectory),
                Some(dir) => Ok(CronDatabaseLocation::File(join_path(dir, path))),
            }
        },
    }
}

/// The logger of a server that is told of none writes to the standard output.
pub fn logger_or_default(configured: Option<LoggerConfig>) -> (logger: LoggerConfig)
    ensures
        logger == (match configured {
            Some(logger) => logger,
            None => LoggerConfig::Stdout,
        }),
{
    match configured {
        Some(logger) => logger,
        None => LoggerConfig::Stdout,
    }
}

/// The blob storage of a server that is told of none is the usual one.
pub fn blob_or_default(configured: Option<BlobConfig>) -> (blob: BlobConfig)
    ensures
        match configured {
            Some(given) => blob == given,
            None => blob.path@ == "/var/lib/fx/blob"@,
        },
{
    match configured {
        Some(blob) => blob,
        None => BlobConfig::default(),
    }
}

/// A server that has not started: its configuration, and how many workers it is to have.
#[derive(Debug)]
pub struct FxServer {
    pub config: ServerConfig,
    pub workers: Option<usize>,
}

/// What a server starts.
#[derive(Debug)]
pub struct StartPlan {
    /// The core of each worker.
    pub worker_cores: Vec<Option<usize>>,
    /// The core of each thread for databases.
    pub sql_cores: Vec<Option<usize>>,
    /// Where the workers listen.
    pub port: u16,
    pub logger: LoggerConfig,
    pub blob: BlobConfig,
    /// Where the runs of the schedules are recorded, or why the thread of the schedules does not
    /// start.
    pub cron: Result<CronDatabaseLocation, CronSkipReason>,
}

/// Where the runs of the schedules are recorded.
pub open spec fn is_cron_location(
    location: Result<CronDatabaseLocation, CronSkipReason>,
    cron_data_path: Option<Seq<char>>,
    has_config_path: bool,
    root_dir: Option<Seq<char>>,
) -> bool {
    match (cron_data_path, location) {
        (None, Ok(CronDatabaseLocation::InMemory)) => true,
        (Some(path), Ok(CronDatabaseLocation::File(file))) => has_config_path && root_dir is Some
            && file@ == monitor::joined(root_dir->0, path),
        (Some(_), Err(CronSkipReason::NoConfigPath)) => !has_config_path,
        (Some(_), Err(CronSkipReason::NoRootDirectory)) => has_config_path && root_dir is None,
        _ => false,
    }
}

/// Whether a server starts what its configuration asks for.
pub open spec fn is_plan(
    plan: StartPlan,
    server: FxServer,
    cpu: Option<CpuInfo>,
    root_dir: Option<Seq<char>>,
) -> bool {
    &&& plan.worker_cores@ == cores(threads(server.workers, cpu), cpu)
    &&& plan.sql_cores@ == cores(threads(server.workers, cpu), cpu)
    &&& plan.port == server.config.server.port.value
    &&& plan.logger == (match server.config.logger {
        Some(logger) => logger,
        None => LoggerConfig::Stdout,
    })
    &&& match server.config.blob {
        Some(blob) => plan.blob == blob,
        None => plan.blob.path@ == "/var/lib/fx/blob"@,
    }
    &&& is_cron_location(
        plan.cron,
        monitor::text_view(server.config.cron_data_path),
        server.config.config_path is Some,
        root_dir,
    )
}

impl FxServer {
    pub fn new(config: ServerConfig, workers: Option<usize>) -> (server: Self)
        ensures
            server == (FxServer { config, workers }),
    {
        FxServer { config, workers }
    }

    /// What the server starts: `engine` says whether the engine could be created, `cpu` what is
    /// known of the machine, and `root_dir` is the directory that holds the configuration, where
    /// its path has one.
    pub fn start(
        self,
        engine: bool,
        cpu: Option<CpuInfo>,
        root_dir: Option<&str>,
    ) -> (plan: Result<StartPlan, StartError>)
        ensures
            match plan {
                Ok(plan) => engine && is_plan(
                    plan,
                    self,
                    cpu,
                    match root_dir {
                        Some(dir) => Some(dir@),
                        None => None,
                    },
                ),
                Err(err) => !engine && err == StartError::InternalInitError,
            },
    {
        if !engine {
            return Err(StartError::InternalInitError);
        }
        let count: usize = thread_count(self.workers, &cpu);
        let worker_cores = thread_cores(count, &cpu);
        let sql_cores = thread_cores(count, &cpu);
        let cron_data_path = match &self.config.cron_data_path {
            Some(path) => Some(path.as_str()),
            None => None,
        };
        let config_path = match &self.config.config_path {
            Some(path) => Some(path.as_str()),
            None => None,
        };
        let cron = cron_database_location(cron_data_path, config_path, root_dir);
        Ok(
            StartPlan {
                worker_cores,
                sql_cores,
                port: self.config.server.port.value,
                logger: logger_or_default(self.config.logger),
                blob: blob_or_default(self.config.blob),
                cron,
            },
        )
    }
}

/// As many threads are started as there are to be workers, four where nothing is said, unless the
/// machine has fewer cores.
pub proof fn threads_are_the_smaller_number(
    workers: Option<usize>,
    cpu: &Option<CpuInfo>,
    count: usize,
)
    requires
        call_ensures(thread_count, (workers, cpu), count),
    ensures
        workers matches Some(n) ==> count <= n,
        workers is None ==> count <= 4,
        *cpu matches Some(known) ==> count <= known.logical_cores,
        (workers matches Some(n) && count == n) || (workers is None && count == 4) || (
        *cpu matches Some(known) && count == known.logical_cores),
{
}

/// Each thread is bound to a core of its own, the first to the first and so on, and where nothing is
/// known of the machine to none.
pub proof fn threads_have_their_own_cores(
    count: usize,
    cpu: &Option<CpuInfo>,
    bound: Vec<Option<usize>>,
    i: int,
)
    requires
        call_ensures(thread_cores, (count, cpu), bound),
    ensures
        cpu is None ==> bound@.len() == count && (0 <= i < count ==> bound@[i] is None),
        *cpu matches Some(known) ==> bound@.len() <= count && bound@.len()
            <= known.processor_ids@.len() && (bound@.len() == count || bound@.len()
            == known.processor_ids@.len()) && (0 <= i < bound@.len() ==> bound@[i] == Some(
            known.processor_ids@[i],
        )),
{
}

/// The database of the schedules is in memory where no path is given for it; else it lies at the path
/// that is given, taken from the root on, and the schedules do not run where there is none.
pub proof fn schedules_are_kept_where_configured(
    cron_data_path: Option<&str>,
    config_path: Option<&str>,
    root_dir: Option<&str>,
    location: Result<CronDatabaseLocation, CronSkipReason>,
)
    requires
        call_ensures(cron_database_location, (cron_data_path, config_path, root_dir), location),
    ensures
        location matches Ok(CronDatabaseLocation::InMemory) <==> cron_data_path is None,
        location matches Ok(CronDatabaseLocation::File(_)) <==> cron_data_path is Some
            && config_path is Some && root_dir is Some,
        location matches Ok(CronDatabaseLocation::File(path)) ==> monitor::is_below(
            path@,
            root_dir->0@,
            cron_data_path->0@,
        ),
        location matches Err(CronSkipReason::NoConfigPath) <==> cron_data_path is Some
            && config_path is None,
{
    if cron_data_path is Some && root_dir is Some {
        monitor::lemma_joined(root_dir->0@, cron_data_path->0@);
    }
}

/// A server starts exactly where there is an engine, with as many threads of either kind as were asked
/// for and fit, on its own port, and with the logger and the place for blobs that are configured.
pub proof fn servers_start_as_configured(
    server: FxServer,
    engine: bool,
    cpu: Option<CpuInfo>,
    root_dir: Option<&str>,
    plan: Result<StartPlan, StartError>,
    count: usize,
    bound: Vec<Option<usize>>,
)
    requires
        call_ensures(FxServer::start, (server, engine, cpu, root_dir), plan),
        call_ensures(thread_count, (server.workers, &cpu), count),
        call_ensures(thread_cores, (count, &cpu), bound),
    ensures
        plan is Ok <==> engine,
        plan is Ok ==> plan->Ok_0.worker_cores@ == bound@ && plan->Ok_0.sql_cores@ == bound@,
        plan is Ok ==> plan->Ok_0.port == server.config.server.port.value,
        plan is Ok ==> (server.config.logger is None ==> plan->Ok_0.logger is Stdout) && (
        server.config.logger is Some ==> plan->Ok_0.logger == server.config.logger->0),
        plan is Ok ==> (server.config.blob is None ==> plan->Ok_0.blob.path@ == "/var/lib/fx/blob"@)
            && (server.config.blob is Some ==> plan->Ok_0.blob == server.config.blob->0),
        plan is Ok ==> (plan->Ok_0.cron matches Ok(CronDatabaseLocation::InMemory)
            <==> server.config.cron_data_path is None),
        plan is Ok ==> (plan->Ok_0.cron matches Ok(CronDatabaseLocation::File(path))
            ==> server.config.cron_data_path is Some && root_dir is Some && monitor::is_below(
            path@,
            root_dir->0@,
            server.config.cron_data_path->0@,
        )),
{
    if server.config.cron_data_path is Some && root_dir is Some {
        monitor::lemma_joined(root_dir->0@, server.config.cron_data_path->0@);
    }
}

/// A deployment succeeded exactly where the request was sent and answered so; a failure to compile is
/// told as one, and no answer as a shutdown.
pub proof fn deployments_are_told_as_answered(
    sent: bool,
    reply: Option<Result<(), DeployFunctionError>>,
    deployed: Result<(), DeployError>,
)
    requires
        call_ensures(deploy_outcome, (sent, reply), deployed),
    ensures
        deployed is Ok <==> sent && (reply matches Some(Ok(_))),
        deployed matches Err(DeployError::CompileError) <==> sent && (reply matches Some(Err(_))),
        deployed matches Err(DeployError::RuntimeShutdown) <==> !sent || reply is None,
{
}

/// What is configured goes before what is taken otherwise.
pub proof fn configured_parts_go_first(
    logger: Option<LoggerConfig>,
    taken: LoggerConfig,
    blob: Option<BlobConfig>,
    place: BlobConfig,
)
    requires
        call_ensures(logger_or_default, (logger,), taken),
        call_ensures(blob_or_default, (blob,), place),
    ensures
        logger is Some ==> taken == logger->0,
        logger is None ==> taken is Stdout,
        blob is Some ==> place == blob->0,
        blob is None ==> place.path@ == "/var/lib/fx/blob"@,
{
}

} // verus!
