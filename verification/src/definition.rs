//! What a function needs around it: its storages, databases and the functions that it calls.
use vstd::prelude::*;

use crate::function::id::FunctionId;
use crate::table::Table;
use crate::text::owned;

verus! {

/// A storage of keys and values.
#[derive(Debug)]
pub struct KvDefinition {
    pub id: String,
    pub path: String,
}

impl KvDefinition {
    pub fn new(id: String, path: String) -> (definition: Self)
        ensures
            definition == (KvDefinition { id, path }),
    {
        KvDefinition { id, path }
    }
}

/// Where a database is kept.
#[derive(Debug)]
pub enum SqlStorageDefinition {
    InMemory,
    Path(String),
}

/// A database.
#[derive(Debug)]
pub struct SqlDefinition {
    pub id: String,
    pub storage: SqlStorageDefinition,
}

impl SqlDefinition {
    /// A database that lives in memory.
    pub fn new(id: String) -> (definition: Self)
        ensures
            definition == (SqlDefinition { id, storage: SqlStorageDefinition::InMemory }),
    {
        SqlDefinition { id, storage: SqlStorageDefinition::InMemory }
    }
}

/// A function that is called.
#[derive(Debug)]
pub struct RpcDefinition {
    pub id: String,
}

impl RpcDefinition {
    pub fn new(id: String) -> (definition: Self)
        ensures
            definition == (RpcDefinition { id }),
    {
        RpcDefinition { id }
    }
}

/// What a function needs around it.
#[derive(Debug)]
pub struct FunctionDefinition {
    pub kv: Vec<KvDefinition>,
    pub sql: Vec<SqlDefinition>,
    pub rpc: Vec<RpcDefinition>,
}

/// What a definition says: the storages by name and path, the databases by name and path, where
/// they have one, and the names of the called functions.
#[verifier::ext_equal]
pub struct DefinitionView {
    pub kv: Seq<(Seq<char>, Seq<char>)>,
    pub sql: Seq<(Seq<char>, Option<Seq<char>>)>,
    pub rpc: Seq<Seq<char>>,
}

/// The path of a database, where it has one.
pub open spec fn storage_path(storage: SqlStorageDefinition) -> Option<Seq<char>> {
    match storage {
        SqlStorageDefinition::InMemory => None,
        SqlStorageDefinition::Path(path) => Some(path@),
    }
}

impl View for FunctionDefinition {
    type V = DefinitionView;

    open spec fn view(&self) -> DefinitionView {
        DefinitionView {
            kv: self.kv@.map_values(|kv: KvDefinition| (kv.id@, kv.path@)),
            sql: self.sql@.map_values(|sql: SqlDefinition| (sql.id@, storage_path(sql.storage))),
            rpc: self.rpc@.map_values(|rpc: RpcDefinition| rpc.id@),
        }
    }
}

/// The definition of a function that needs nothing.
pub open spec fn no_needs() -> DefinitionView {
    DefinitionView { kv: Seq::empty(), sql: Seq::empty(), rpc: Seq::empty() }
}

impl Default for FunctionDefinition {
    fn default() -> (definition: Self)
        ensures
            definition@ == no_needs(),
    {
        let definition = FunctionDefinition { kv: Vec::new(), sql: Vec::new(), rpc: Vec::new() };
        assert(definition@ =~= no_needs());
        definition
    }
}

impl Clone for FunctionDefinition {
    fn clone(&self) -> (copy: Self)
        ensures
            copy@ == self@,
    {
        let mut kv: Vec<KvDefinition> = Vec::new();
        let mut i: usize = 0;
        while i < self.kv.len()
            invariant
                i <= self.kv@.len(),
                kv@.map_values(|kv: KvDefinition| (kv.id@, kv.path@)) =~= self@.kv.take(i as int),
            decreases self.kv@.len() - i,
        {
            let ghost before = kv@.map_values(|kv: KvDefinition| (kv.id@, kv.path@));
            kv.push(KvDefinition { id: self.kv[i].id.clone(), path: self.kv[i].path.clone() });
            assert(kv@.map_values(|kv: KvDefinition| (kv.id@, kv.path@)) =~= before.push(
                self@.kv[i as int],
            ));
            i = i + 1;
        }
        let mut sql: Vec<SqlDefinition> = Vec::new();
        let mut j: usize = 0;
        while j < self.sql.len()
            invariant
                j <= self.sql@.len(),
                sql@.map_values(|sql: SqlDefinition| (sql.id@, storage_path(sql.storage)))
                    =~= self@.sql.take(j as int),
            decreases self.sql@.len() - j,
        {
            let ghost before = sql@.map_values(
                |sql: SqlDefinition| (sql.id@, storage_path(sql.storage)),
            );
            let storage = match &self.sql[j].storage {
                SqlStorageDefinition::InMemory => SqlStorageDefinition::InMemory,
                SqlStorageDefinition::Path(path) => SqlStorageDefinition::Path(path.clone()),
            };
            sql.push(SqlDefinition { id: self.sql[j].id.clone(), storage });
            assert(sql@.map_values(|sql: SqlDefinition| (sql.id@, storage_path(sql.storage)))
                =~= before.push(self@.sql[j as int]));
            j = j + 1;
        }
        let mut rpc: Vec<RpcDefinition> = Vec::new();
        let mut k: usize = 0;
        while k < self.rpc.len()
            invariant
                k <= self.rpc@.len(),
                rpc@.map_values(|rpc: RpcDefinition| rpc.id@) =~= self@.rpc.take(k as int),
            decreases self.rpc@.len() - k,
        {
            let ghost before = rpc@.map_values(|rpc: RpcDefinition| rpc.id@);
            rpc.push(RpcDefinition { id: self.rpc[k].id.clone() });
            assert(rpc@.map_values(|rpc: RpcDefinition| rpc.id@) =~= before.push(
                self@.rpc[k as int],
            ));
            k = k + 1;
        }
        let copy = FunctionDefinition { kv, sql, rpc };
        assert(copy@ =~= self@);
        copy
    }
}

impl FunctionDefinition {
    pub fn new() -> (definition: Self)
        ensures
            definition@ == no_needs(),
    {
        FunctionDefinition::default()
    }

    pub fn with_kv(self, kv: KvDefinition) -> (definition: Self)
        ensures
            definition.kv@ == self.kv@.push(kv),
            definition.sql == self.sql,
            definition.rpc == self.rpc,
    {
        let mut definition = self;
        definition.kv.push(kv);
        definition
    }

    pub fn with_sql(self, sql: SqlDefinition) -> (definition: Self)
        ensures
            definition.sql@ == self.sql@.push(sql),
            definition.kv == self.kv,
            definition.rpc == self.rpc,
    {
        let mut definition = self;
        definition.sql.push(sql);
        definition
    }

    pub fn with_rpc(self, rpc: RpcDefinition) -> (definition: Self)
        ensures
            definition.rpc@ == self.rpc@.push(rpc),
            definition.kv == self.kv,
            definition.sql == self.sql,
    {
        let mut definition = self;
        definition.rpc.push(rpc);
        definition
    }
}

/// Why there is no definition of a function.
#[derive(Debug)]
pub enum DefinitionError {
    ParseError { reason: String },
    LoadError { reason: String },
}

/// A storage in the configuration of a function.
#[derive(Debug)]
pub struct KvConfig {
    pub id: String,
    pub path: String,
}

/// A database in the configuration of a function.
#[derive(Debug)]
pub struct SqlConfig {
    pub id: String,
    pub path: String,
}

/// A called function in the configuration of a function.
#[derive(Debug)]
pub struct RpcConfig {
    pub id: String,
}

/// The configuration of a function.
#[derive(Debug)]
pub struct FunctionConfig {
    pub kv: Option<Vec<KvConfig>>,
    pub sql: Option<Vec<SqlConfig>>,
    pub rpc: Option<Vec<RpcConfig>>,
}

/// What a configuration defines; a list that is left out is an empty one, and every database has a
/// path.
pub open spec fn configured(config: FunctionConfig) -> DefinitionView {
    DefinitionView {
        kv: match config.kv {
            Some(kv) => kv@.map_values(|kv: KvConfig| (kv.id@, kv.path@)),
            None => Seq::empty(),
        },
        sql: match config.sql {
            Some(sql) => sql@.map_values(|sql: SqlConfig| (sql.id@, Some(sql.path@))),
            None => Seq::empty(),
        },
        rpc: match config.rpc {
            Some(rpc) => rpc@.map_values(|rpc: RpcConfig| rpc.id@),
            None => Seq::empty(),
        },
    }
}

fn kv_from_config(configs: &Vec<KvConfig>) -> (kv: Vec<KvDefinition>)
    ensures
        kv@.map_values(|kv: KvDefinition| (kv.id@, kv.path@)) == configs@.map_values(
            |kv: KvConfig| (kv.id@, kv.path@),
        ),
{
    let mut kv: Vec<KvDefinition> = Vec::new();
    let ghost all = configs@.map_values(|kv: KvConfig| (kv.id@, kv.path@));
    let mut i: usize = 0;
    while i < configs.len()
        invariant
            i <= configs@.len(),
            all == configs@.map_values(|kv: KvConfig| (kv.id@, kv.path@)),
            kv@.map_values(|kv: KvDefinition| (kv.id@, kv.path@)) =~= all.take(i as int),
        decreases configs@.len() - i,
    {
        let ghost before = kv@.map_values(|kv: KvDefinition| (kv.id@, kv.path@));
        kv.push(KvDefinition { id: configs[i].id.clone(), path: configs[i].path.clone() });
        assert(kv@.map_values(|kv: KvDefinition| (kv.id@, kv.path@)) =~= before.push(
            all[i as int],
        ));
        i = i + 1;
    }
    assert(all.take(i as int) =~= all);
    kv
}

fn sql_from_config(configs: &Vec<SqlConfig>) -> (sql: Vec<SqlDefinition>)
    ensures
        sql@.map_values(|sql: SqlDefinition| (sql.id@, storage_path(sql.storage)))
            == configs@.map_values(|sql: SqlConfig| (sql.id@, Some(sql.path@))),
{
    let mut sql: Vec<SqlDefinition> = Vec::new();
    let ghost all = configs@.map_values(|sql: SqlConfig| (sql.id@, Some(sql.path@)));
    let mut i: usize = 0;
    while i < configs.len()
        invariant
            i <= configs@.len(),
            all == configs@.map_values(|sql: SqlConfig| (sql.id@, Some(sql.path@))),
            sql@.map_values(|sql: SqlDefinition| (sql.id@, storage_path(sql.storage)))
                =~= all.take(i as int),
        decreases configs@.len() - i,
    {
        let ghost before = sql@.map_values(
            |sql: SqlDefinition| (sql.id@, storage_path(sql.storage)),
        );
        sql.push(
            SqlDefinition {
                id: configs[i].id.clone(),
                storage: SqlStorageDefinition::Path(configs[i].path.clone()),
            },
        );
        assert(sql@.map_values(|sql: SqlDefinition| (sql.id@, storage_path(sql.storage)))
            =~= before.push(all[i as int]));
        i = i + 1;
    }
    assert(all.take(i as int) =~= all);
    sql
}

fn rpc_from_config(configs: &Vec<RpcConfig>) -> (rpc: Vec<RpcDefinition>)
    ensures
        rpc@.map_values(|rpc: RpcDefinition| rpc.id@) == configs@.map_values(
            |rpc: RpcConfig| rpc.id@,
        ),
{
    let mut rpc: Vec<RpcDefinition> = Vec::new();
    let ghost all = configs@.map_values(|rpc: RpcConfig| rpc.id@);
    let mut i: usize = 0;
    while i < configs.len()
        invariant
            i <= configs@.len(),
            all == configs@.map_values(|rpc: RpcConfig| rpc.id@),
            rpc@.map_values(|rpc: RpcDefinition| rpc.id@) =~= all.take(i as int),
        decreases configs@.len() - i,
    {
        let ghost before = rpc@.map_values(|rpc: RpcDefinition| rpc.id@);
        rpc.push(RpcDefinition { id: configs[i].id.clone() });
        assert(rpc@.map_values(|rpc: RpcDefinition| rpc.id@) =~= before.push(all[i as int]));
        i = i + 1;
    }
    assert(all.take(i as int) =~= all);
    rpc
}

/// What a configuration defines; `parsed` is the configuration, or why its text is none.
pub fn definition_from_config(parsed: Result<FunctionConfig, String>) -> (definition: Result<
    FunctionDefinition,
    DefinitionError,
>)
    ensures
        match (parsed, definition) {
            (Ok(config), Ok(definition)) => definition@ == configured(config),
            (Err(fault), Err(DefinitionError::ParseError { reason })) => reason@
                == "failed to load yaml file: "@ + fault@,
            _ => false,
        },
{
    match parsed {
        Err(fault) => {
            let mut reason = owned("failed to load yaml file: ");
            reason.push_str(fault.as_str());
            Err(DefinitionError::ParseError { reason })
        },
        Ok(config) => {
            let kv = match &config.kv {
                Some(kv) => kv_from_config(kv),
                None => Vec::new(),
            };
            let sql = match &config.sql {
                Some(sql) => sql_from_config(sql),
                None => Vec::new(),
            };
            let rpc = match &config.rpc {
                Some(rpc) => rpc_from_config(rpc),
                None => Vec::new(),
            };
            let definition = FunctionDefinition { kv, sql, rpc };
            assert(definition@ =~= configured(config));
            Ok(definition)
        },
    }
}

/// What a storage of definitions holds for a function.
#[derive(Debug)]
pub enum StoredDefinition {
    /// The storage failed.
    Failed(String),
    Missing,
    /// The configuration, or why what is stored is none.
    Found(Result<FunctionConfig, String>),
}

/// The definitions that are given, before those of a storage.
pub struct DefinitionProvider {
    pub definitions: Table<FunctionId, FunctionDefinition>,
}

impl DefinitionProvider {
    pub open spec fn wf(&self) -> bool {
        self.definitions.wf()
    }

    pub fn new() -> (provider: Self)
        ensures
            provider.wf(),
            provider.definitions@ == Map::<Seq<char>, FunctionDefinition>::empty(),
    {
        DefinitionProvider { definitions: Table::new() }
    }

    pub fn with_definition(self, function_id: FunctionId, definition: FunctionDefinition) -> (
    provider: Self)
        requires
            self.wf(),
        ensures
            provider.wf(),
            provider.definitions@ == self.definitions@.insert(function_id@, definition),
    {
        let mut definitions = self.definitions;
        definitions.insert(function_id, definition);
        DefinitionProvider { definitions }
    }

    /// The definition of a function: the one that is given, else the one that is stored, else one
    /// that needs nothing.
    pub fn definition_for_function(&self, id: &FunctionId, stored: StoredDefinition) -> (found:
        Result<FunctionDefinition, DefinitionError>)
        requires
            self.wf(),
        ensures
            if self.definitions@.dom().contains(id@) {
                found matches Ok(definition) && definition@ == self.definitions@[id@]@
            } else {
                match (stored, found) {
                    (StoredDefinition::Failed(fault), Err(DefinitionError::LoadError { reason })) =>
                        reason@ == "failed to get definition from storage: "@ + fault@,
                    (StoredDefinition::Missing, Ok(definition)) => definition@ == no_needs(),
                    (StoredDefinition::Found(Ok(config)), Ok(definition)) => definition@
                        == configured(config),
                    (
                        StoredDefinition::Found(Err(fault)),
                        Err(DefinitionError::ParseError { reason }),
                    ) => reason@ == "failed to load yaml file: "@ + fault@,
                    _ => false,
                }
            },
    {
        if let Some(definition) = self.definitions.get(id) {
            return Ok(definition.clone());
        }
        match stored {
            StoredDefinition::Failed(fault) => {
                let mut reason = owned("failed to get definition from storage: ");
                reason.push_str(fault.as_str());
                Err(DefinitionError::LoadError { reason })
            },
            StoredDefinition::Missing => Ok(FunctionDefinition::default()),
            StoredDefinition::Found(parsed) => definition_from_config(parsed),
        }
    }
}

/// The schedules of a server and where their runs are recorded.
#[derive(Debug)]
pub struct CronConfig {
    pub state_path: String,
    pub tasks: Vec<CronTaskConfig>,
}

/// A schedule of a server.
#[derive(Debug)]
pub struct CronTaskConfig {
    pub id: String,
    pub schedule: String,
    pub function: String,
    pub rpc_method_name: String,
}

/// The queues that a server consumes.
#[derive(Debug)]
pub struct RabbitMqConsumerConfig {
    pub consumers: Vec<RabbitMqConsumerTaskConfig>,
}

/// A queue that a server consumes.
#[derive(Debug)]
pub struct RabbitMqConsumerTaskConfig {
    pub id: String,
    pub queue: String,
    pub function: String,
    pub rpc_method_name: String,
}

/// What a function is configured with is what it is defined with: as many stores, databases and
/// functions, in their order, each with its own name and path; and nothing that is not configured.
pub proof fn definitions_have_what_is_configured(
    config: FunctionConfig,
    definition: Result<FunctionDefinition, DefinitionError>,
    i: int,
)
    requires
        call_ensures(definition_from_config, (Ok::<_, String>(config),), definition),
    ensures
        definition is Ok,
        config.kv is None ==> definition->Ok_0.kv@.len() == 0,
        config.sql is None ==> definition->Ok_0.sql@.len() == 0,
        config.rpc is None ==> definition->Ok_0.rpc@.len() == 0,
        config.kv matches Some(kv) ==> definition->Ok_0.kv@.len() == kv@.len() && (0 <= i < kv@.len()
            ==> definition->Ok_0.kv@[i].id@ == kv@[i].id@ && definition->Ok_0.kv@[i].path@
            == kv@[i].path@),
        config.sql matches Some(sql) ==> definition->Ok_0.sql@.len() == sql@.len() && (0 <= i
            < sql@.len() ==> definition->Ok_0.sql@[i].id@ == sql@[i].id@ && (
        definition->Ok_0.sql@[i].storage matches SqlStorageDefinition::Path(path) && path@
            == sql@[i].path@)),
        config.rpc matches Some(rpc) ==> definition->Ok_0.rpc@.len() == rpc@.len() && (0 <= i
            < rpc@.len() ==> definition->Ok_0.rpc@[i].id@ == rpc@[i].id@),
{
    let made = definition->Ok_0;
    let kv = made.kv@.map_values(|kv: KvDefinition| (kv.id@, kv.path@));
    let sql = made.sql@.map_values(|sql: SqlDefinition| (sql.id@, storage_path(sql.storage)));
    let rpc = made.rpc@.map_values(|rpc: RpcDefinition| rpc.id@);
    assert(kv == made@.kv);
    assert(sql == made@.sql);
    assert(rpc == made@.rpc);
    assert(kv.len() == made.kv@.len());
    assert(sql.len() == made.sql@.len());
    assert(rpc.len() == made.rpc@.len());
    if config.kv is Some && 0 <= i < config.kv->0@.len() {
        assert(kv[i] == (made.kv@[i].id@, made.kv@[i].path@));
        assert(kv[i] == (config.kv->0@[i].id@, config.kv->0@[i].path@));
    }
    if config.sql is Some && 0 <= i < config.sql->0@.len() {
        assert(sql[i] == (made.sql@[i].id@, storage_path(made.sql@[i].storage)));
        assert(sql[i] == (config.sql->0@[i].id@, Some(config.sql->0@[i].path@)));
    }
    if config.rpc is Some && 0 <= i < config.rpc->0@.len() {
        assert(rpc[i] == made.rpc@[i].id@);
        assert(rpc[i] == config.rpc->0@[i].id@);
    }
}

/// A definition that was given for a function goes before one that is stored; one that is stored is read
/// as it is configured; a function without either needs nothing.
pub proof fn given_definitions_go_first(
    provider: DefinitionProvider,
    id: &FunctionId,
    stored: StoredDefinition,
    found: Result<FunctionDefinition, DefinitionError>,
)
    requires
        call_ensures(DefinitionProvider::definition_for_function, (&provider, id, stored), found),
    ensures
        provider.definitions@.dom().contains(id@) ==> found is Ok && found->Ok_0@
            == provider.definitions@[id@]@,
        !provider.definitions@.dom().contains(id@) ==> (found is Ok <==> stored is Missing || (
        stored matches StoredDefinition::Found(Ok(_)))),
        !provider.definitions@.dom().contains(id@) && stored is Missing
            ==> found->Ok_0.kv@.len() == 0 && found->Ok_0.sql@.len() == 0
            && found->Ok_0.rpc@.len() == 0,
        !provider.definitions@.dom().contains(id@) && stored is Failed
            ==> found->Err_0 is LoadError,
        !provider.definitions@.dom().contains(id@) && (stored matches StoredDefinition::Found(
            Err(_),
        )) ==> found->Err_0 is ParseError,
{
    if !provider.definitions@.dom().contains(id@) && stored is Missing {
        let made = found->Ok_0;
        assert(made@.kv.len() == made.kv@.len());
        assert(made@.sql.len() == made.sql@.len());
        assert(made@.rpc.len() == made.rpc@.len());
    }
}

/// A copy of a definition has the same stores, databases and functions.
pub proof fn copies_have_the_same_needs(
    definition: FunctionDefinition,
    copy: FunctionDefinition,
    i: int,
)
    requires
        call_ensures(FunctionDefinition::clone, (&definition,), copy),
    ensures
        copy.kv@.len() == definition.kv@.len(),
        copy.sql@.len() == definition.sql@.len(),
        copy.rpc@.len() == definition.rpc@.len(),
        0 <= i < definition.kv@.len() ==> copy.kv@[i].id@ == definition.kv@[i].id@
            && copy.kv@[i].path@ == definition.kv@[i].path@,
        0 <= i < definition.sql@.len() ==> copy.sql@[i].id@ == definition.sql@[i].id@,
        0 <= i < definition.rpc@.len() ==> copy.rpc@[i].id@ == definition.rpc@[i].id@,
{
    assert(copy@.kv.len() == copy.kv@.len() && definition@.kv.len() == definition.kv@.len());
    assert(copy@.sql.len() == copy.sql@.len() && definition@.sql.len() == definition.sql@.len());
    assert(copy@.rpc.len() == copy.rpc@.len() && definition@.rpc.len() == definition.rpc@.len());
    if 0 <= i < definition.kv@.len() {
        assert(copy@.kv[i] == (copy.kv@[i].id@, copy.kv@[i].path@));
        assert(definition@.kv[i] == (definition.kv@[i].id@, definition.kv@[i].path@));
    }
    if 0 <= i < definition.sql@.len() {
        assert(copy@.sql[i] == (copy.sql@[i].id@, storage_path(copy.sql@[i].storage)));
        assert(definition@.sql[i] == (
            definition.sql@[i].id@,
            storage_path(definition.sql@[i].storage),
        ));
    }
    if 0 <= i < definition.rpc@.len() {
        assert(copy@.rpc[i] == copy.rpc@[i].id@);
        assert(definition@.rpc[i] == definition.rpc@[i].id@);
    }
}

/// What a function needs more comes after what it needed before, and the rest stays.
pub proof fn needs_are_added_one_by_one(
    definition: FunctionDefinition,
    kv: KvDefinition,
    with_kv: FunctionDefinition,
    sql: SqlDefinition,
    with_sql: FunctionDefinition,
    rpc: RpcDefinition,
    with_rpc: FunctionDefinition,
    i: int,
)
    requires
        call_ensures(FunctionDefinition::with_kv, (definition, kv), with_kv),
        call_ensures(FunctionDefinition::with_sql, (definition, sql), with_sql),
        call_ensures(FunctionDefinition::with_rpc, (definition, rpc), with_rpc),
    ensures
        with_kv.kv@.len() == definition.kv@.len() + 1 && with_kv.kv@.last() == kv,
        with_sql.sql@.len() == definition.sql@.len() + 1 && with_sql.sql@.last() == sql,
        with_rpc.rpc@.len() == definition.rpc@.len() + 1 && with_rpc.rpc@.last() == rpc,
        0 <= i < definition.kv@.len() ==> with_kv.kv@[i] == definition.kv@[i],
        0 <= i < definition.sql@.len() ==> with_sql.sql@[i] == definition.sql@[i],
        0 <= i < definition.rpc@.len() ==> with_rpc.rpc@[i] == definition.rpc@[i],
        with_kv.sql == definition.sql && with_kv.rpc == definition.rpc,
        with_sql.kv == definition.kv && with_sql.rpc == definition.rpc,
        with_rpc.kv == definition.kv && with_rpc.sql == definition.sql,
{
}

/// A definition that is given for a function is the one that is kept for it, and those of other functions
/// stay.
pub proof fn given_definitions_are_kept(
    provider: DefinitionProvider,
    function_id: FunctionId,
    definition: FunctionDefinition,
    after: DefinitionProvider,
    other: Seq<char>,
)
    requires
        call_ensures(
            DefinitionProvider::with_definition,
            (provider, function_id, definition),
            after,
        ),
    ensures
        after.definitions@.dom().contains(function_id.id@),
        after.definitions@[function_id.id@] == definition,
        other != function_id.id@ ==> (after.definitions@.dom().contains(other)
            <==> provider.definitions@.dom().contains(other)),
        other != function_id.id@ && provider.definitions@.dom().contains(other)
            ==> after.definitions@[other] == provider.definitions@[other],
{
}

/// A definition that cannot be had is refused with the reason.
pub proof fn missing_definitions_are_told(
    provider: DefinitionProvider,
    id: &FunctionId,
    fault: String,
    unread: Result<FunctionDefinition, DefinitionError>,
    unparsed: Result<FunctionDefinition, DefinitionError>,
    direct: Result<FunctionDefinition, DefinitionError>,
)
    requires
        !provider.definitions@.dom().contains(id@),
        call_ensures(
            DefinitionProvider::definition_for_function,
            (&provider, id, StoredDefinition::Failed(fault)),
            unread,
        ),
        call_ensures(
            DefinitionProvider::definition_for_function,
            (&provider, id, StoredDefinition::Found(Err(fault))),
            unparsed,
        ),
        call_ensures(definition_from_config, (Err::<FunctionConfig, _>(fault),), direct),
    ensures
        unread matches Err(DefinitionError::LoadError { reason }) && reason@
            == "failed to get definition from storage: "@ + fault@,
        unparsed matches Err(DefinitionError::ParseError { reason }) && reason@
            == "failed to load yaml file: "@ + fault@,
        direct matches Err(DefinitionError::ParseError { reason }) && reason@
            == "failed to load yaml file: "@ + fault@,
{
}

/// What is stored for a function is read as what is configured: the same stores, databases and functions
/// in the same order.
pub proof fn stored_definitions_are_read_as_configured(
    provider: DefinitionProvider,
    id: &FunctionId,
    config: FunctionConfig,
    found: Result<FunctionDefinition, DefinitionError>,
    direct: Result<FunctionDefinition, DefinitionError>,
)
    requires
        !provider.definitions@.dom().contains(id@),
        call_ensures(
            DefinitionProvider::definition_for_function,
            (&provider, id, StoredDefinition::Found(Ok(config))),
            found,
        ),
        call_ensures(definition_from_config, (Ok::<_, String>(config),), direct),
    ensures
        found is Ok,
        direct is Ok,
        found->Ok_0@ == direct->Ok_0@,
{
}

} // verus!
