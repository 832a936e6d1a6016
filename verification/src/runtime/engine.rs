//! The contexts in which functions run. A function may have several, as when it is deployed
//! anew; its name points to one of them.
use vstd::prelude::*;

use crate::compiler::{CompilerError, CompilerMetadata};
use crate::definition::{
    DefinitionError, FunctionDefinition, KvDefinition, RpcDefinition, SqlDefinition,
    SqlStorageDefinition,
};
use crate::function::deployment::ModuleImport;
use crate::function::id::FunctionId;
use crate::runtime::error::{FunctionInvokeError, FunctionInvokeInternalRuntimeError};
use crate::runtime::memory;
use crate::runtime::memory::read_memory_owned;
use crate::table::{Table, TableKey};
use crate::text::same_text;

verus! {

/// The number of a context.
#[derive(Clone, Copy, Debug, PartialEq, Eq, Structural, Hash)]
pub struct ExecutionContextId {
    pub id: u64,
}

impl ExecutionContextId {
    pub fn new(id: u64) -> (context: Self)
        ensures
            context.id == id,
    {
        ExecutionContextId { id }
    }
}

impl View for ExecutionContextId {
    type V = u64;

    open spec fn view(&self) -> u64 {
        self.id
    }
}

impl TableKey for ExecutionContextId {
    fn same_key(&self, other: &Self) -> (same: bool) {
        self.id == other.id
    }

    fn copy_key(&self) -> (copy: Self) {
        *self
    }
}

/// The function that a call goes to.
pub struct RpcBinding {
    pub target_function: FunctionId,
}

impl RpcBinding {
    pub fn new(target_function: FunctionId) -> (binding: Self)
        ensures
            binding.target_function == target_function,
    {
        RpcBinding { target_function }
    }
}

/// A context: an instance of the function, and what is to be dropped in it.
pub struct ExecutionContext<I> {
    pub function_id: FunctionId,
    pub instance: I,
    pub compiler_metadata: CompilerMetadata,
    /// The instance is to be created anew before it is called again.
    pub needs_recreate: bool,
    pub futures_to_drop: Vec<i64>,
    pub streams_to_drop: Vec<i64>,
}

/// Whether an import is one that the host does not give.
pub open spec fn is_foreign(import: ModuleImport, host: Seq<String>) -> bool {
    forall|j: int| 0 <= j < host.len() ==> (#[trigger] host[j])@ != import.module@
}

/// The imports that the host does not give, in their order.
pub open spec fn foreign(imports: Seq<ModuleImport>, host: Seq<String>) -> Seq<
    (Seq<char>, Seq<char>),
>
    decreases imports.len(),
{
    if imports.len() == 0 {
        Seq::empty()
    } else {
        let rest = foreign(imports.drop_last(), host);
        if is_foreign(imports.last(), host) {
            rest.push((imports.last().module@, imports.last().name@))
        } else {
            rest
        }
    }
}

/// The names of the imports in a list.
pub open spec fn import_names(imports: Seq<(String, String)>) -> Seq<(Seq<char>, Seq<char>)> {
    imports.map_values(|import: (String, String)| (import.0@, import.1@))
}

fn is_foreign_import(import: &ModuleImport, host: &Vec<String>) -> (missing: bool)
    ensures
        missing == is_foreign(*import, host@),
{
    let mut j: usize = 0;
    while j < host.len()
        invariant
            j <= host@.len(),
            forall|k: int| 0 <= k < j ==> (#[trigger] host@[k])@ != import.module@,
        decreases host@.len() - j,
    {
        if same_text(host[j].as_str(), import.module.as_str()) {
            assert(host@[j as int]@ == import.module@);
            return false;
        }
        j = j + 1;
    }
    true
}

/// The imports that are filled in with functions that fail when they are called: all of those
/// that are from no module of the host. Some libraries have imports that they never call.
pub fn unsupported_imports(imports: &Vec<ModuleImport>, host: &Vec<String>) -> (filled: Vec<
    (String, String),
>)
    requires
        forall|i: int|
            0 <= i < imports@.len() && is_foreign(#[trigger] imports@[i], host@)
                ==> imports@[i].is_function,
    ensures
        import_names(filled@) == foreign(imports@, host@),
{
    let mut filled: Vec<(String, String)> = Vec::new();
    let mut i: usize = 0;
    while i < imports.len()
        invariant
            i <= imports@.len(),
            import_names(filled@) == foreign(imports@.take(i as int), host@),
        decreases imports@.len() - i,
    {
        let ghost before = import_names(filled@);
        proof {
            let next = imports@.take(i + 1);
            assert(next.drop_last() =~= imports@.take(i as int));
            assert(next.last() == imports@[i as int]);
        }
        if is_foreign_import(&imports[i], host) {
            filled.push((imports[i].module.clone(), imports[i].name.clone()));
            assert(import_names(filled@) =~= before.push(
                (imports@[i as int].module@, imports@[i as int].name@),
            ));
        }
        i = i + 1;
    }
    assert(imports@.take(imports@.len() as int) =~= imports@);
    filled
}

/// What a function that the host does not give fails with.
pub const UNSUPPORTED_API: &'static str = "this api is not supported by fx";

/// What a context is made of.
pub struct ContextPlan {
    pub module_code: Vec<u8>,
    /// The storages, by name: where each is kept.
    pub kv: Table<String, String>,
    /// The databases, by name.
    pub sql: Table<String, SqlStorageDefinition>,
    pub rpc: Table<String, RpcBinding>,
    pub allow_fetch: bool,
    pub allow_log: bool,
}

/// The paths of storages by name; of a name that comes again the last stays.
pub open spec fn kv_paths(kv: Seq<KvDefinition>) -> Map<Seq<char>, Seq<char>>
    decreases kv.len(),
{
    if kv.len() == 0 {
        Map::empty()
    } else {
        kv_paths(kv.drop_last()).insert(kv.last().id@, kv.last().path@)
    }
}

/// The databases by name; of a name that comes again the last stays.
pub open spec fn sql_storages(sql: Seq<SqlDefinition>) -> Map<Seq<char>, SqlStorageDefinition>
    decreases sql.len(),
{
    if sql.len() == 0 {
        Map::empty()
    } else {
        sql_storages(sql.drop_last()).insert(sql.last().id@, sql.last().storage)
    }
}

/// Whether a table binds exactly the called functions, each under its own name.
pub open spec fn binds_functions(table: Table<String, RpcBinding>, rpc: Seq<RpcDefinition>) -> bool {
    &&& table.wf()
    &&& forall|k: Seq<char>| #[trigger]
        table@.dom().contains(k) <==> exists|i: int| 0 <= i < rpc.len() && (#[trigger] rpc[i]).id@
            == k
    &&& forall|k: Seq<char>| #[trigger]
        table@.dom().contains(k) ==> table@[k].target_function@ == k
}

/// Whether a plan is what a definition asks for.
pub open spec fn plans(
    plan: ContextPlan,
    definition: FunctionDefinition,
    module_code: Vec<u8>,
) -> bool {
    &&& plan.module_code == module_code
    &&& plan.kv.wf() && plan.kv@.dom() =~= kv_paths(definition.kv@).dom()
    &&& forall|k: Seq<char>| #[trigger]
        plan.kv@.dom().contains(k) ==> plan.kv@[k]@ == kv_paths(definition.kv@)[k]
    &&& plan.sql.wf() && plan.sql@ == sql_storages(definition.sql@)
    &&& binds_functions(plan.rpc, definition.rpc@)
    &&& plan.allow_fetch && plan.allow_log
}

fn kv_table(kv: &Vec<KvDefinition>) -> (table: Table<String, String>)
    ensures
        table.wf(),
        table@.dom() =~= kv_paths(kv@).dom(),
        forall|k: Seq<char>| #[trigger]
            table@.dom().contains(k) ==> table@[k]@ == kv_paths(kv@)[k],
{
    let mut table: Table<String, String> = Table::new();
    let mut i: usize = 0;
    while i < kv.len()
        invariant
            i <= kv@.len(),
            table.wf(),
            table@.dom() =~= kv_paths(kv@.take(i as int)).dom(),
            forall|k: Seq<char>| #[trigger]
                table@.dom().contains(k) ==> table@[k]@ == kv_paths(kv@.take(i as int))[k],
        decreases kv@.len() - i,
    {
        proof {
            let next = kv@.take(i + 1);
            assert(next.drop_last() =~= kv@.take(i as int));
            assert(next.last() == kv@[i as int]);
        }
        table.insert(kv[i].id.clone(), kv[i].path.clone());
        i = i + 1;
    }
    assert(kv@.take(kv@.len() as int) =~= kv@);
    table
}

fn sql_table(sql: Vec<SqlDefinition>) -> (table: Table<String, SqlStorageDefinition>)
    ensures
        table.wf(),
        table@ == sql_storages(sql@),
    decreases sql@.len(),
{
    let mut rest = sql;
    match rest.pop() {
        None => {
            let table: Table<String, SqlStorageDefinition> = Table::new();
            table
        },
        Some(last) => {
            assert(rest@ =~= sql@.drop_last());
            let mut table = sql_table(rest);
            table.insert(last.id, last.storage);
            table
        },
    }
}

fn rpc_table(rpc: &Vec<RpcDefinition>) -> (table: Table<String, RpcBinding>)
    ensures
        binds_functions(table, rpc@),
{
    let mut table: Table<String, RpcBinding> = Table::new();
    let mut i: usize = 0;
    while i < rpc.len()
        invariant
            i <= rpc@.len(),
            binds_functions(table, rpc@.take(i as int)),
        decreases rpc@.len() - i,
    {
        let ghost before = table@;
        let ghost taken = rpc@.take(i as int);
        table.insert(
            rpc[i].id.clone(),
            RpcBinding { target_function: FunctionId::new(rpc[i].id.clone()) },
        );
        proof {
            let next = rpc@.take(i + 1);
            assert forall|k: Seq<char>| #[trigger]
                table@.dom().contains(k) <==> exists|j: int|
                    0 <= j < next.len() && (#[trigger] next[j]).id@ == k by {
                if before.dom().contains(k) {
                    let j = choose|j: int| 0 <= j < taken.len() && (#[trigger] taken[j]).id@ == k;
                    assert(next[j].id@ == k);
                }
                assert(next[i as int].id@ == rpc@[i as int].id@);
                if exists|j: int| 0 <= j < next.len() && (#[trigger] next[j]).id@ == k {
                    let j = choose|j: int| 0 <= j < next.len() && (#[trigger] next[j]).id@ == k;
                    if j < i {
                        assert(taken[j].id@ == k);
                        assert(before.dom().contains(k));
                    }
                }
            }
        }
        i = i + 1;
    }
    assert(rpc@.take(rpc@.len() as int) =~= rpc@);
    table
}

/// What a context is made of, from the definition of the function and from its code, as they were
/// loaded.
pub fn plan_context(
    definition: Result<FunctionDefinition, DefinitionError>,
    module_code: Result<Option<Vec<u8>>, String>,
) -> (plan: Result<ContextPlan, FunctionInvokeError>)
    ensures
        match (definition, module_code, plan) {
            (Err(d), _, Err(err)) => err == FunctionInvokeError::DefinitionMissing(d),
            (Ok(_), Err(fault), Err(err)) => err == FunctionInvokeError::CodeFailedToLoad(fault),
            (Ok(_), Ok(None), Err(err)) => err == FunctionInvokeError::CodeNotFound,
            (Ok(d), Ok(Some(code)), Ok(plan)) => plans(plan, d, code),
            _ => false,
        },
{
    let definition = match definition {
        Ok(definition) => definition,
        Err(err) => return Err(FunctionInvokeError::DefinitionMissing(err)),
    };
    let module_code = match module_code {
        Ok(Some(code)) => code,
        Ok(None) => return Err(FunctionInvokeError::CodeNotFound),
        Err(fault) => return Err(FunctionInvokeError::CodeFailedToLoad(fault)),
    };
    let kv = kv_table(&definition.kv);
    let rpc = rpc_table(&definition.rpc);
    let sql = sql_table(definition.sql);
    Ok(ContextPlan { module_code, kv, sql, rpc, allow_fetch: true, allow_log: true })
}

impl<I> ExecutionContext<I> {
    /// A fresh context: `compiled` is how its code was compiled, `instance` what the engine made
    /// of it.
    pub fn new(
        function_id: FunctionId,
        compiled: Result<CompilerMetadata, CompilerError>,
        instance: Result<I, String>,
    ) -> (context: Result<Self, FunctionInvokeError>)
        ensures
            match (compiled, instance, context) {
                (Err(c), _, Err(err)) => err == FunctionInvokeError::FailedToCompile(c),
                (Ok(_), Err(fault), Err(err)) => err == FunctionInvokeError::FailedToInstantiate(
                    fault,
                ),
                (Ok(metadata), Ok(instance), Ok(context)) => context.function_id == function_id
                    && context.instance == instance && context.compiler_metadata == metadata
                    && !context.needs_recreate && context.futures_to_drop@.len() == 0
                    && context.streams_to_drop@.len() == 0,
                _ => false,
            },
    {
        let compiler_metadata = match compiled {
            Ok(metadata) => metadata,
            Err(err) => return Err(FunctionInvokeError::FailedToCompile(err)),
        };
        let instance = match instance {
            Ok(instance) => instance,
            Err(fault) => return Err(FunctionInvokeError::FailedToInstantiate(fault)),
        };
        Ok(
            ExecutionContext {
                function_id,
                instance,
                compiler_metadata,
                needs_recreate: false,
                futures_to_drop: Vec::new(),
                streams_to_drop: Vec::new(),
            },
        )
    }

    /// Gives the context a new instance, or says why there is none; what was to be dropped went
    /// with the old one.
    pub fn reset(&mut self, instance: Result<I, String>) -> (done: Result<(), FunctionInvokeError>)
        ensures
            match (instance, done) {
                (Ok(fresh), Ok(())) => final(self).instance == fresh && !final(self).needs_recreate
                    && final(self).futures_to_drop@.len() == 0 && final(self).streams_to_drop@.len() == 0 && final(self).function_id == old(self).function_id
                    && final(self).compiler_metadata == old(self).compiler_metadata,
                (Err(fault), Err(err)) => err == FunctionInvokeError::FailedToInstantiate(fault)
                    && *final(self) == *old(self),
                _ => false,
            },
    {
        match instance {
            Ok(instance) => {
                self.instance = instance;
                self.needs_recreate = false;
                self.futures_to_drop = Vec::new();
                self.streams_to_drop = Vec::new();
                Ok(())
            },
            Err(fault) => Err(FunctionInvokeError::FailedToInstantiate(fault)),
        }
    }
}

/// What the host keeps for an instance: `S` is a storage, `D` a database and `L` a logger.
pub struct ExecutionEnv<S, D, L> {
    pub execution_context_id: ExecutionContextId,
    pub function_id: FunctionId,
    /// What the function has reported as an error.
    pub execution_error: Option<Vec<u8>>,
    /// What the function has answered.
    pub rpc_response: Option<Vec<u8>>,
    pub storage: Table<String, S>,
    pub sql: Table<String, D>,
    pub rpc: Table<String, RpcBinding>,
    pub allow_fetch: bool,
    pub allow_log: bool,
    pub logger: Option<L>,
}

impl<S, D, L> ExecutionEnv<S, D, L> {
    pub open spec fn wf(&self) -> bool {
        self.storage.wf() && self.sql.wf() && self.rpc.wf()
    }

    pub fn new(
        function_id: FunctionId,
        execution_context_id: ExecutionContextId,
        storage: Table<String, S>,
        sql: Table<String, D>,
        rpc: Table<String, RpcBinding>,
        allow_fetch: bool,
        allow_log: bool,
        logger: Option<L>,
    ) -> (env: Self)
        ensures
            env == (ExecutionEnv {
                execution_context_id,
                function_id,
                execution_error: None,
                rpc_response: None,
                storage,
                sql,
                rpc,
                allow_fetch,
                allow_log,
                logger,
            }),
    {
        ExecutionEnv {
            execution_context_id,
            function_id,
            execution_error: None,
            rpc_response: None,
            storage,
            sql,
            rpc,
            allow_fetch,
            allow_log,
            logger,
        }
    }

    /// Hands over everything for another instance of the same context: what the last one has
    /// reported and answered is forgotten, and it may fetch and log.
    pub fn reset(&mut self) -> (env: Self)
        ensures
            env.execution_context_id == old(self).execution_context_id,
            env.function_id@ == old(self).function_id@,
            env.execution_error is None,
            env.rpc_response is None,
            env.storage == old(self).storage,
            env.sql == old(self).sql,
            env.rpc == old(self).rpc,
            env.allow_fetch,
            env.allow_log,
            env.logger == old(self).logger,
            final(self).wf(),
            final(self).storage@ == Map::<Seq<char>, S>::empty(),
            final(self).sql@ == Map::<Seq<char>, D>::empty(),
            final(self).rpc@ == Map::<Seq<char>, RpcBinding>::empty(),
            final(self).logger is None,
            final(self).execution_context_id == old(self).execution_context_id,
            final(self).function_id == old(self).function_id,
            final(self).execution_error == old(self).execution_error,
            final(self).rpc_response == old(self).rpc_response,
            final(self).allow_fetch == old(self).allow_fetch,
            final(self).allow_log == old(self).allow_log,
    {
        let mut storage: Table<String, S> = Table::new();
        std::mem::swap(&mut storage, &mut self.storage);
        let mut sql: Table<String, D> = Table::new();
        std::mem::swap(&mut sql, &mut self.sql);
        let mut rpc: Table<String, RpcBinding> = Table::new();
        std::mem::swap(&mut rpc, &mut self.rpc);
        let mut logger: Option<L> = None;
        std::mem::swap(&mut logger, &mut self.logger);
        ExecutionEnv {
            execution_context_id: self.execution_context_id,
            function_id: self.function_id.clone(),
            execution_error: None,
            rpc_response: None,
            storage,
            sql,
            rpc,
            allow_fetch: true,
            allow_log: true,
            logger,
        }
    }

    /// Keeps what the function reports as an error: bytes of its memory.
    pub fn handle_send_error(&mut self, memory: &[u8], addr: i64, len: i64)
        requires
            memory::in_memory(memory@, addr, len as int),
        ensures
            final(self).execution_error matches Some(bytes) && bytes@ == memory@.subrange(
                addr as int,
                addr + len,
            ),
            *final(self) == (ExecutionEnv {
                execution_error: final(self).execution_error,
                ..*old(self)
            }),
    {
        self.execution_error = Some(read_memory_owned(memory, addr, len));
    }

    /// Keeps what the function answers: bytes of its memory.
    pub fn handle_send_rpc_response(&mut self, memory: &[u8], addr: i64, len: i64)
        requires
            memory::in_memory(memory@, addr, len as int),
        ensures
            final(self).rpc_response matches Some(bytes) && bytes@ == memory@.subrange(
                addr as int,
                addr + len,
            ),
            *final(self) == (ExecutionEnv { rpc_response: final(self).rpc_response, ..*old(self) }),
    {
        self.rpc_response = Some(read_memory_owned(memory, addr, len));
    }
}

/// What an invocation does first.
#[derive(Clone, Copy, Debug, PartialEq, Eq, Structural)]
pub enum InvokeStep {
    /// The context is to be reset before it runs.
    Reset(ExecutionContextId),
    Run(ExecutionContextId),
}

/// The contexts of all functions.
pub struct Engine<I> {
    pub deployed_functions: Table<FunctionId, ExecutionContextId>,
    pub execution_context_id_counter: u64,
    pub execution_contexts: Table<ExecutionContextId, ExecutionContext<I>>,
}

/// The names of functions.
pub open spec fn function_names(functions: Seq<FunctionId>) -> Seq<Seq<char>> {
    functions.map_values(|f: FunctionId| f@)
}

/// The number after a number; the last one is followed by the first.
pub open spec fn next_number(number: u64) -> u64 {
    if number == u64::MAX {
        0
    } else {
        (number + 1) as u64
    }
}

/// What the invocation of a function does first that points to a context; nothing where there is
/// no such context.
pub open spec fn step_of<I>(
    contexts: Map<u64, ExecutionContext<I>>,
    id: ExecutionContextId,
) -> Option<InvokeStep> {
    if !contexts.dom().contains(id.id) {
        None
    } else if contexts[id.id].needs_recreate {
        Some(InvokeStep::Reset(id))
    } else {
        Some(InvokeStep::Run(id))
    }
}

/// Contexts, of which one is to be reset before it runs again.
pub open spec fn reloaded<I>(contexts: Map<u64, ExecutionContext<I>>, id: u64) -> Map<
    u64,
    ExecutionContext<I>,
> {
    if contexts.dom().contains(id) {
        contexts.insert(id, (ExecutionContext { needs_recreate: true, ..contexts[id] }))
    } else {
        contexts
    }
}

impl<I> Engine<I> {
    pub open spec fn wf(&self) -> bool {
        self.deployed_functions.wf() && self.execution_contexts.wf()
    }

    /// Every number in use was given before the next one.
    pub open spec fn numbered(&self) -> bool {
        &&& forall|k: u64| #[trigger]
            self.execution_contexts@.dom().contains(k) ==> k < self.execution_context_id_counter
        &&& forall|f: Seq<char>| #[trigger]
            self.deployed_functions@.dom().contains(f) ==> self.deployed_functions@[f].id
                < self.execution_context_id_counter
    }

    /// The context that a function points to, or will point to once it is asked for.
    pub open spec fn target(&self, function_id: Seq<char>) -> ExecutionContextId {
        if self.deployed_functions@.dom().contains(function_id) {
            self.deployed_functions@[function_id]
        } else {
            ExecutionContextId { id: self.execution_context_id_counter }
        }
    }

    /// The next number once a function was asked for.
    pub open spec fn counter_after(&self, function_id: Seq<char>) -> u64 {
        if self.deployed_functions@.dom().contains(function_id) {
            self.execution_context_id_counter
        } else {
            next_number(self.execution_context_id_counter)
        }
    }

    /// Whether a function has a context: it points to one that exists.
    pub open spec fn has_context(&self, function_id: Seq<char>) -> bool {
        &&& self.deployed_functions@.dom().contains(function_id)
        &&& self.execution_contexts@.dom().contains(self.deployed_functions@[function_id].id)
    }

    pub fn new() -> (engine: Self)
        ensures
            engine.wf(),
            engine.numbered(),
            engine.deployed_functions@ == Map::<Seq<char>, ExecutionContextId>::empty(),
            engine.execution_contexts@ == Map::<u64, ExecutionContext<I>>::empty(),
            engine.execution_context_id_counter == 0,
    {
        Engine {
            deployed_functions: Table::new(),
            execution_context_id_counter: 0,
            execution_contexts: Table::new(),
        }
    }

    fn next_context_id(&mut self) -> (id: ExecutionContextId)
        ensures
            id.id == old(self).execution_context_id_counter,
            final(self).execution_context_id_counter == next_number(
                old(self).execution_context_id_counter,
            ),
            final(self).deployed_functions == old(self).deployed_functions,
            final(self).execution_contexts == old(self).execution_contexts,
    {
        let id: u64 = self.execution_context_id_counter;
        self.execution_context_id_counter = if id == u64::MAX {
            0
        } else {
            id + 1
        };
        ExecutionContextId::new(id)
    }

    /// The context that a function points to; one that points to none yet gets the next number.
    pub fn resolve_context_id_for_function(&mut self, function_id: &FunctionId) -> (id:
        ExecutionContextId)
        requires
            old(self).wf(),
        ensures
            final(self).wf(),
            final(self).execution_contexts == old(self).execution_contexts,
            id == old(self).target(function_id@),
            final(self).deployed_functions@ == old(self).deployed_functions@.insert(
                function_id@,
                id,
            ),
            final(self).execution_context_id_counter == old(self).counter_after(function_id@),
            old(self).deployed_functions@.dom().contains(function_id@) ==> *final(self) == *old(
                self,
            ),
            old(self).numbered() && old(self).execution_context_id_counter < u64::MAX ==> final(self).numbered(),
    {
        if let Some(id) = self.deployed_functions.get(function_id) {
            let id = *id;
            assert(self.deployed_functions@.insert(function_id@, id)
                =~= self.deployed_functions@);
            return id;
        }
        let id = self.next_context_id();
        self.deployed_functions.insert(function_id.copy_key(), id);
        id
    }

    /// Adds a context, where it could be created. It runs nothing until a function points to it.
    pub fn create_execution_context(
        &mut self,
        created: Result<ExecutionContext<I>, FunctionInvokeError>,
    ) -> (id: Result<ExecutionContextId, FunctionInvokeError>)
        requires
            old(self).wf(),
        ensures
            final(self).wf(),
            final(self).deployed_functions == old(self).deployed_functions,
            final(self).execution_context_id_counter == next_number(
                old(self).execution_context_id_counter,
            ),
            match (created, id) {
                (Ok(context), Ok(id)) => id.id == old(self).execution_context_id_counter && final(self).execution_contexts@ == old(self).execution_contexts@.insert(id.id, context),
                (Err(c), Err(err)) => err == c && final(self).execution_contexts == old(self).execution_contexts,
                _ => false,
            },
            old(self).numbered() && old(self).execution_context_id_counter < u64::MAX ==> final(self).numbered() && !old(self).execution_contexts@.dom().contains(
                old(self).execution_context_id_counter,
            ),
    {
        let id = self.next_context_id();
        match created {
            Ok(context) => {
                self.execution_contexts.insert(id, context);
                Ok(id)
            },
            Err(err) => Err(err),
        }
    }

    pub fn remove_execution_context(&mut self, id: &ExecutionContextId)
        requires
            old(self).wf(),
        ensures
            final(self).wf(),
            final(self).execution_contexts@ == old(self).execution_contexts@.remove(id.id),
            final(self).deployed_functions == old(self).deployed_functions,
            final(self).execution_context_id_counter == old(self).execution_context_id_counter,
    {
        let _removed = self.execution_contexts.remove(id);
    }

    /// Points a function to a context; the one that it pointed to before is returned.
    pub fn update_function_execution_context(
        &mut self,
        function_id: FunctionId,
        id: ExecutionContextId,
    ) -> (previous: Option<ExecutionContextId>)
        requires
            old(self).wf(),
        ensures
            final(self).wf(),
            final(self).deployed_functions@ == old(self).deployed_functions@.insert(
                function_id@,
                id,
            ),
            final(self).execution_contexts == old(self).execution_contexts,
            final(self).execution_context_id_counter == old(self).execution_context_id_counter,
            previous == (if old(self).deployed_functions@.dom().contains(function_id@) {
                Some(old(self).deployed_functions@[function_id@])
            } else {
                None
            }),
    {
        self.deployed_functions.insert(function_id, id)
    }

    /// Has the context of a function reset before it runs again.
    pub fn reload(&mut self, function_id: &FunctionId)
        requires
            old(self).wf(),
        ensures
            final(self).wf(),
            final(self).deployed_functions@ == old(self).deployed_functions@.insert(
                function_id@,
                old(self).target(function_id@),
            ),
            final(self).execution_context_id_counter == old(self).counter_after(function_id@),
            final(self).execution_contexts@ == reloaded(
                old(self).execution_contexts@,
                old(self).target(function_id@).id,
            ),
    {
        let id = self.resolve_context_id_for_function(function_id);
        if let Some(context) = self.execution_contexts.get_mut(&id) {
            context.needs_recreate = true;
        }
    }

    /// What an invocation of a function does first; `locked` says whether the contexts could be
    /// read, and why not.
    pub fn invoke_service_raw(
        &mut self,
        function_id: &FunctionId,
        locked: Result<(), String>,
    ) -> (step: Result<InvokeStep, FunctionInvokeError>)
        requires
            old(self).wf(),
        ensures
            final(self).wf(),
            final(self).execution_contexts == old(self).execution_contexts,
            final(self).deployed_functions@ == old(self).deployed_functions@.insert(
                function_id@,
                old(self).target(function_id@),
            ),
            final(self).execution_context_id_counter == old(self).counter_after(function_id@),
            old(self).deployed_functions@.dom().contains(function_id@) ==> *final(self) == *old(self),
            ({
                let id = old(self).target(function_id@);
                let contexts = old(self).execution_contexts@;
                match (locked, step) {
                    (Err(fault), Err(err)) => err == FunctionInvokeError::RuntimeError(
                        FunctionInvokeInternalRuntimeError::ExecutionContextsFailedToLock {
                            reason: fault,
                        },
                    ),
                    (Ok(()), Err(err)) => err == FunctionInvokeError::CodeNotFound && step_of(
                        contexts,
                        id,
                    ) is None,
                    (Ok(()), Ok(step)) => step_of(contexts, id) == Some(step),
                    _ => false,
                }
            }),
    {
        let id = self.resolve_context_id_for_function(function_id);
        if let Err(reason) = locked {
            return Err(
                FunctionInvokeError::from(
                    FunctionInvokeInternalRuntimeError::ExecutionContextsFailedToLock { reason },
                ),
            );
        }
        match self.execution_contexts.get(&id) {
            None => Err(FunctionInvokeError::CodeNotFound),
            Some(context) => if context.needs_recreate {
                Ok(InvokeStep::Reset(id))
            } else {
                Ok(InvokeStep::Run(id))
            },
        }
    }

    /// Whether a function needs a context before it runs: it points to none, or the one that it
    /// points to is to be created anew.
    pub fn need_to_create_context(&self, function_id: &FunctionId) -> (need: bool)
        requires
            self.wf(),
        ensures
            need == !(self.deployed_functions@.dom().contains(function_id@)
                && self.execution_contexts@.dom().contains(
                self.deployed_functions@[function_id@].id,
            ) && !self.execution_contexts@[self.deployed_functions@[function_id@].id].needs_recreate),
    {
        match self.deployed_functions.get(function_id) {
            None => true,
            Some(id) => match self.execution_contexts.get(id) {
                None => true,
                Some(context) => context.needs_recreate,
            },
        }
    }

    /// The functions that have a context, each once.
    pub fn list_functions(&self) -> (functions: Vec<FunctionId>)
        requires
            self.wf(),
        ensures
            function_names(functions@).no_duplicates(),
            forall|f: Seq<char>| #[trigger]
                function_names(functions@).contains(f) <==> self.has_context(f),
    {
        let mut functions: Vec<FunctionId> = Vec::new();
        let mut i: usize = 0;
        while i < self.deployed_functions.entries.len()
            invariant
                self.wf(),
                i <= self.deployed_functions.entries@.len(),
                function_names(functions@).no_duplicates(),
                forall|f: Seq<char>| #[trigger]
                    function_names(functions@).contains(f) <==> self.has_context(f) && exists|j: int|
                        j < i && self.deployed_functions.key_is(j, f),
            decreases self.deployed_functions.entries@.len() - i,
        {
            let ghost before = function_names(functions@);
            let ghost name = self.deployed_functions.entries@[i as int].0@;
            proof {
                self.deployed_functions.lemma_entry(i as int);
                assert(!before.contains(name)) by {
                    if before.contains(name) {
                        let j = choose|j: int| j < i && self.deployed_functions.key_is(j, name);
                        assert(self.deployed_functions.entries@[j].0@
                            != self.deployed_functions.entries@[i as int].0@);
                    }
                }
            }
            if self.execution_contexts.contains_key(&self.deployed_functions.entries[i].1) {
                functions.push(self.deployed_functions.entries[i].0.clone());
                assert(function_names(functions@) =~= before.push(name));
            }
            proof {
                let after = function_names(functions@);
                assert forall|f: Seq<char>| #[trigger] after.contains(f) <==> self.has_context(f)
                    && exists|j: int| j < i + 1 && self.deployed_functions.key_is(j, f) by {
                    if after.contains(f) {
                        let at = choose|at: int| 0 <= at < after.len() && after[at] == f;
                        if at < before.len() {
                            assert(before[at] == f);
                            assert(before.contains(f));
                        } else {
                            assert(self.deployed_functions.key_is(i as int, f));
                        }
                    }
                    if self.has_context(f) && exists|j: int|
                        j < i + 1 && self.deployed_functions.key_is(j, f) {
                        let j = choose|j: int| j < i + 1 && self.deployed_functions.key_is(j, f);
                        if j < i {
                            assert(before.contains(f));
                            let at = choose|at: int| 0 <= at < before.len() && before[at] == f;
                            assert(after[at] == f);
                        } else {
                            assert(after[before.len() as int] == f);
                        }
                    }
                }
            }
            i = i + 1;
        }
        proof {
            assert forall|f: Seq<char>| #[trigger]
                function_names(functions@).contains(f) <==> self.has_context(f) by {
                if self.has_context(f) {
                    let j = self.deployed_functions.lemma_position(f);
                    assert(j < i && self.deployed_functions.key_is(j, f));
                }
            }
        }
        functions
    }

    /// Has a stream of a function dropped when the function runs next.
    pub fn stream_drop(&mut self, id: &ExecutionContextId, index: i64)
        requires
            old(self).wf(),
            old(self).execution_contexts@.dom().contains(id.id),
        ensures
            final(self).wf(),
            final(self).deployed_functions == old(self).deployed_functions,
            final(self).execution_contexts@.dom() == old(self).execution_contexts@.dom(),
            final(self).execution_contexts@[id.id].streams_to_drop@ == old(self).execution_contexts@[id.id].streams_to_drop@.push(index),
            final(self).execution_contexts@[id.id].futures_to_drop == old(self).execution_contexts@[id.id].futures_to_drop,
            final(self).execution_contexts@[id.id].needs_recreate == old(self).execution_contexts@[id.id].needs_recreate,
            final(self).execution_contexts@[id.id].instance == old(self).execution_contexts@[id.id].instance,
            final(self).execution_contexts@[id.id].function_id == old(self).execution_contexts@[id.id].function_id,
            final(self).execution_contexts@[id.id].compiler_metadata == old(self).execution_contexts@[id.id].compiler_metadata,
            final(self).execution_context_id_counter == old(self).execution_context_id_counter,
            forall|k: u64|
                k != id.id && #[trigger] old(self).execution_contexts@.dom().contains(k) ==> final(self).execution_contexts@[k] == old(self).execution_contexts@[k],
    {
        if let Some(context) = self.execution_contexts.get_mut(id) {
            context.streams_to_drop.push(index);
        }
        assert(self.execution_contexts@.dom() =~= old(self).execution_contexts@.dom());
    }
}

/// A function that is reloaded starts afresh: its next invocation resets its context, where it has
/// one, while every other function goes on as before.
pub proof fn reloaded_functions_start_afresh<I>(
    contexts: Map<u64, ExecutionContext<I>>,
    id: ExecutionContextId,
    other: ExecutionContextId,
)
    requires
        contexts.dom().contains(id.id),
    ensures
        step_of(reloaded(contexts, id.id), id) == Some(InvokeStep::Reset(id)),
        other.id != id.id ==> step_of(reloaded(contexts, id.id), other) == step_of(
            contexts,
            other,
        ),
        reloaded(reloaded(contexts, id.id), id.id) == reloaded(contexts, id.id),
{
    assert(reloaded(reloaded(contexts, id.id), id.id) =~= reloaded(contexts, id.id));
}

/// To deploy a function anew, its context created and its name pointed to it, has the name run
/// that context, and leaves every other function with the context that it had.
pub proof fn deploying_leaves_other_functions_alone<I>(
    before: Engine<I>,
    function_id: Seq<char>,
    id: ExecutionContextId,
    context: ExecutionContext<I>,
)
    requires
        before.numbered(),
        id.id == before.execution_context_id_counter,
    ensures
        ({
            let deployed = before.deployed_functions@.insert(function_id, id);
            let contexts = before.execution_contexts@.insert(id.id, context);
            &&& deployed[function_id] == id
            &&& contexts.dom().contains(id.id) && contexts[id.id] == context
            &&& forall|other: Seq<char>|
                other != function_id && #[trigger] before.deployed_functions@.dom().contains(other)
                    ==> {
                    let target = before.deployed_functions@[other].id;
                    &&& deployed[other].id == target
                    &&& contexts.dom().contains(target) == before.execution_contexts@.dom().contains(
                        target,
                    )
                    &&& contexts[target] == before.execution_contexts@[target]
                }
        }),
{
    assert forall|other: Seq<char>|
        other != function_id && #[trigger] before.deployed_functions@.dom().contains(
            other,
        ) implies before.deployed_functions@[other].id != id.id by {}
}

proof fn lemma_kv_paths(kv: Seq<KvDefinition>)
    ensures
        forall|k: Seq<char>| #[trigger]
            kv_paths(kv).dom().contains(k) <==> exists|i: int|
                0 <= i < kv.len() && (#[trigger] kv[i]).id@ == k,
        forall|i: int|
            #![trigger kv[i]]
            0 <= i < kv.len() && (forall|j: int|
                i < j < kv.len() ==> (#[trigger] kv[j]).id@ != kv[i].id@) ==> kv_paths(kv)[kv[i].id@]
                == kv[i].path@,
    decreases kv.len(),
{
    if kv.len() > 0 {
        let rest = kv.drop_last();
        lemma_kv_paths(rest);
        let whole = kv_paths(kv);
        let last = kv.len() - 1;
        assert forall|k: Seq<char>| #[trigger] whole.dom().contains(k) <==> exists|i: int|
            0 <= i < kv.len() && (#[trigger] kv[i]).id@ == k by {
            if whole.dom().contains(k) && k != kv[last].id@ {
                assert(kv_paths(rest).dom().contains(k));
                let i = choose|i: int| 0 <= i < rest.len() && (#[trigger] rest[i]).id@ == k;
                assert(kv[i].id@ == k);
            }
            if exists|i: int| 0 <= i < kv.len() && (#[trigger] kv[i]).id@ == k {
                let i = choose|i: int| 0 <= i < kv.len() && (#[trigger] kv[i]).id@ == k;
                if i < last {
                    assert(rest[i].id@ == k);
                    assert(kv_paths(rest).dom().contains(k));
                }
            }
        }
        assert forall|i: int|
            #![trigger kv[i]]
            0 <= i < kv.len() && (forall|j: int|
                i < j < kv.len() ==> (#[trigger] kv[j]).id@ != kv[i].id@) implies whole[kv[i].id@]
            == kv[i].path@ by {
            if i < last {
                assert(kv[last].id@ != kv[i].id@);
                assert forall|j: int| i < j < rest.len() implies (#[trigger] rest[j]).id@
                    != rest[i].id@ by {
                    assert(kv[j].id@ != kv[i].id@);
                }
                assert(rest[i] == kv[i]);
            }
        }
    }
}

proof fn lemma_sql_storages(sql: Seq<SqlDefinition>)
    ensures
        forall|k: Seq<char>| #[trigger]
            sql_storages(sql).dom().contains(k) <==> exists|i: int|
                0 <= i < sql.len() && (#[trigger] sql[i]).id@ == k,
        forall|i: int|
            #![trigger sql[i]]
            0 <= i < sql.len() && (forall|j: int|
                i < j < sql.len() ==> (#[trigger] sql[j]).id@ != sql[i].id@) ==> sql_storages(sql)[sql[i].id@]
                == sql[i].storage,
    decreases sql.len(),
{
    if sql.len() > 0 {
        let rest = sql.drop_last();
        lemma_sql_storages(rest);
        let whole = sql_storages(sql);
        let last = sql.len() - 1;
        assert forall|k: Seq<char>| #[trigger] whole.dom().contains(k) <==> exists|i: int|
            0 <= i < sql.len() && (#[trigger] sql[i]).id@ == k by {
            if whole.dom().contains(k) && k != sql[last].id@ {
                assert(sql_storages(rest).dom().contains(k));
                let i = choose|i: int| 0 <= i < rest.len() && (#[trigger] rest[i]).id@ == k;
                assert(sql[i].id@ == k);
            }
            if exists|i: int| 0 <= i < sql.len() && (#[trigger] sql[i]).id@ == k {
                let i = choose|i: int| 0 <= i < sql.len() && (#[trigger] sql[i]).id@ == k;
                if i < last {
                    assert(rest[i].id@ == k);
                    assert(sql_storages(rest).dom().contains(k));
                }
            }
        }
        assert forall|i: int|
            #![trigger sql[i]]
            0 <= i < sql.len() && (forall|j: int|
                i < j < sql.len() ==> (#[trigger] sql[j]).id@ != sql[i].id@) implies whole[sql[i].id@]
            == sql[i].storage by {
            if i < last {
                assert(sql[last].id@ != sql[i].id@);
                assert forall|j: int| i < j < rest.len() implies (#[trigger] rest[j]).id@
                    != rest[i].id@ by {
                    assert(sql[j].id@ != sql[i].id@);
                }
                assert(rest[i] == sql[i]);
            }
        }
    }
}

/// A context is planned from its definition: it has the stores and databases of the definition, each
/// with what stands beside its own name there (the last where a name stands twice), and each function
/// that the definition names under that name; and no others.
pub proof fn contexts_have_what_is_defined(
    definition: FunctionDefinition,
    code: Vec<u8>,
    plan: Result<ContextPlan, FunctionInvokeError>,
    name: Seq<char>,
    i: int,
)
    requires
        call_ensures(
            plan_context,
            (
                Ok::<FunctionDefinition, DefinitionError>(definition),
                Ok::<Option<Vec<u8>>, String>(Some(code)),
            ),
            plan,
        ),
    ensures
        plan is Ok,
        plan->Ok_0.module_code == code,
        plan->Ok_0.allow_fetch,
        plan->Ok_0.allow_log,
        plan->Ok_0.kv@.dom().contains(name) <==> exists|j: int|
            0 <= j < definition.kv@.len() && (#[trigger] definition.kv@[j]).id@ == name,
        plan->Ok_0.sql@.dom().contains(name) <==> exists|j: int|
            0 <= j < definition.sql@.len() && (#[trigger] definition.sql@[j]).id@ == name,
        plan->Ok_0.rpc@.dom().contains(name) <==> exists|j: int|
            0 <= j < definition.rpc@.len() && (#[trigger] definition.rpc@[j]).id@ == name,
        0 <= i < definition.kv@.len() && (forall|j: int|
            i < j < definition.kv@.len() ==> (#[trigger] definition.kv@[j]).id@
                != definition.kv@[i].id@) ==> plan->Ok_0.kv@[definition.kv@[i].id@]@
            == definition.kv@[i].path@,
        0 <= i < definition.sql@.len() && (forall|j: int|
            i < j < definition.sql@.len() ==> (#[trigger] definition.sql@[j]).id@
                != definition.sql@[i].id@) ==> plan->Ok_0.sql@[definition.sql@[i].id@]
            == definition.sql@[i].storage,
        0 <= i < definition.rpc@.len() ==> plan->Ok_0.rpc@[definition.rpc@[i].id@].target_function@
            == definition.rpc@[i].id@,
{
    lemma_kv_paths(definition.kv@);
    lemma_sql_storages(definition.sql@);
    assert(kv_paths(definition.kv@).dom().contains(name) == plan->Ok_0.kv@.dom().contains(name));
    if 0 <= i < definition.kv@.len() {
        assert(kv_paths(definition.kv@).dom().contains(definition.kv@[i].id@));
        assert(plan->Ok_0.kv@.dom().contains(definition.kv@[i].id@));
    }
    if 0 <= i < definition.rpc@.len() {
        assert(plan->Ok_0.rpc@.dom().contains(definition.rpc@[i].id@));
    }
}

/// Where no context can be planned, the failure says what was missing, the definition before the code.
pub proof fn missing_parts_of_contexts_are_told_apart(
    definition: Result<FunctionDefinition, DefinitionError>,
    module_code: Result<Option<Vec<u8>>, String>,
    plan: Result<ContextPlan, FunctionInvokeError>,
)
    requires
        call_ensures(plan_context, (definition, module_code), plan),
    ensures
        definition matches Err(fault) ==> plan == Err::<ContextPlan, _>(
            FunctionInvokeError::DefinitionMissing(fault),
        ),
        definition is Ok && module_code is Err ==> plan == Err::<ContextPlan, _>(
            FunctionInvokeError::CodeFailedToLoad(module_code->Err_0),
        ),
        definition is Ok && module_code == Ok::<Option<Vec<u8>>, String>(None) ==> plan == Err::<
            ContextPlan,
            _,
        >(FunctionInvokeError::CodeNotFound),
{
}

proof fn lemma_foreign(imports: Seq<ModuleImport>, host: Seq<String>)
    ensures
        foreign(imports, host) == imports.filter(
            |import: ModuleImport|
                forall|j: int| 0 <= j < host.len() ==> (#[trigger] host[j])@ != import.module@,
        ).map_values(|import: ModuleImport| (import.module@, import.name@)),
    decreases imports.len(),
{
    reveal(Seq::filter);
    let strange = |import: ModuleImport|
        forall|j: int| 0 <= j < host.len() ==> (#[trigger] host[j])@ != import.module@;
    let named = |import: ModuleImport| (import.module@, import.name@);
    if imports.len() == 0 {
        assert(foreign(imports, host) =~= imports.filter(strange).map_values(named));
    } else {
        let rest = imports.drop_last();
        lemma_foreign(rest, host);
        if strange(imports.last()) {
            assert(imports.filter(strange).map_values(named) =~= rest.filter(strange).map_values(
                named,
            ).push(named(imports.last())));
        }
    }
}

/// The imports that are filled in are those of modules that the host does not have, each under its own
/// module and name, in the order in which the module lists them.
pub proof fn imports_of_strange_modules_are_filled_in(
    imports: &Vec<ModuleImport>,
    host: &Vec<String>,
    filled: Vec<(String, String)>,
)
    requires
        call_ensures(unsupported_imports, (imports, host), filled),
    ensures
        filled@.map_values(|import: (String, String)| (import.0@, import.1@)) == imports@.filter(
            |import: ModuleImport|
                forall|j: int| 0 <= j < host@.len() ==> (#[trigger] host@[j])@ != import.module@,
        ).map_values(|import: ModuleImport| (import.module@, import.name@)),
{
    lemma_foreign(imports@, host@);
}

/// A function that is deployed and has a context runs in that context, which is made anew first exactly
/// where it is marked for that; calling it changes nothing. One that is deployed without a context has
/// no code.
pub proof fn functions_run_in_their_own_contexts<I>(
    function_id: &FunctionId,
    step: Result<InvokeStep, FunctionInvokeError>,
)
    ensures
        forall|engine: &mut Engine<I>| #[trigger]
            call_ensures(
                Engine::<I>::invoke_service_raw,
                (engine, function_id, Ok::<(), String>(())),
                step,
            ) && engine.deployed_functions@.dom().contains(function_id@) ==> {
                let id = engine.deployed_functions@[function_id@];
                &&& *final(engine) == *engine
                &&& engine.execution_contexts@.dom().contains(id.id)
                    && engine.execution_contexts@[id.id].needs_recreate ==> step == Ok::<
                    _,
                    FunctionInvokeError,
                >(InvokeStep::Reset(id))
                &&& engine.execution_contexts@.dom().contains(id.id)
                    && !engine.execution_contexts@[id.id].needs_recreate ==> step == Ok::<
                    _,
                    FunctionInvokeError,
                >(InvokeStep::Run(id))
                &&& !engine.execution_contexts@.dom().contains(id.id) ==> step == Err::<
                    InvokeStep,
                    _,
                >(FunctionInvokeError::CodeNotFound)
            },
{
}

/// A function that is not deployed gets the number of the counter, which moves on, and every other
/// function and all contexts stay as they are; the next call finds it under the same number.
pub proof fn new_functions_get_fresh_numbers<I>(
    function_id: &FunctionId,
    id: ExecutionContextId,
    other: Seq<char>,
)
    ensures
        forall|engine: &mut Engine<I>| #[trigger]
            call_ensures(Engine::<I>::resolve_context_id_for_function, (engine, function_id), id)
                ==> {
                &&& final(engine).deployed_functions@.dom().contains(function_id@)
                &&& final(engine).deployed_functions@[function_id@] == id
                &&& final(engine).execution_contexts == engine.execution_contexts
                &&& engine.deployed_functions@.dom().contains(function_id@) ==> id
                    == engine.deployed_functions@[function_id@] && *final(engine) == *engine
                &&& !engine.deployed_functions@.dom().contains(function_id@) ==> id.id
                    == engine.execution_context_id_counter && (engine.execution_context_id_counter
                    < u64::MAX ==> final(engine).execution_context_id_counter
                    == engine.execution_context_id_counter + 1)
                &&& other != function_id@ ==> (final(engine).deployed_functions@.dom().contains(
                    other,
                ) <==> engine.deployed_functions@.dom().contains(other))
                &&& other != function_id@ && engine.deployed_functions@.dom().contains(other)
                    ==> final(engine).deployed_functions@[other]
                    == engine.deployed_functions@[other]
            },
{
}

/// Reloading a function marks its own context to be made anew, keeps what else is in it, and leaves
/// every other context as it is.
pub proof fn reloading_marks_one_context<I>(function_id: &FunctionId, other: u64)
    ensures
        forall|engine: &mut Engine<I>| #[trigger]
            call_ensures(Engine::<I>::reload, (engine, function_id), ())
                && engine.deployed_functions@.dom().contains(function_id@) ==> {
                let id = engine.deployed_functions@[function_id@].id;
                &&& final(engine).deployed_functions@ =~= engine.deployed_functions@
                &&& final(engine).execution_contexts@.dom() == engine.execution_contexts@.dom()
                &&& engine.execution_contexts@.dom().contains(id) ==> final(engine).execution_contexts@[id].needs_recreate
                    && final(engine).execution_contexts@[id].instance
                    == engine.execution_contexts@[id].instance
                    && final(engine).execution_contexts@[id].function_id
                    == engine.execution_contexts@[id].function_id
                &&& other != id && engine.execution_contexts@.dom().contains(other) ==> final(engine).execution_contexts@[other]
                    == engine.execution_contexts@[other]
            },
{
    assert forall|engine: &mut Engine<I>| #[trigger]
        call_ensures(Engine::<I>::reload, (engine, function_id), ())
            && engine.deployed_functions@.dom().contains(function_id@) implies final(engine).execution_contexts@.dom()
        == engine.execution_contexts@.dom() by {
        assert(final(engine).execution_contexts@.dom() =~= engine.execution_contexts@.dom());
    }
}

/// A context that was made is kept under the number of the counter, and the others stay; where making
/// it failed, they all do.
pub proof fn contexts_are_kept_under_their_numbers<I>(
    created: Result<ExecutionContext<I>, FunctionInvokeError>,
    id: Result<ExecutionContextId, FunctionInvokeError>,
    other: u64,
)
    ensures
        forall|engine: &mut Engine<I>| #[trigger]
            call_ensures(Engine::<I>::create_execution_context, (engine, created), id) ==> {
                &&& created is Ok <==> id is Ok
                &&& created is Ok ==> id->Ok_0.id == engine.execution_context_id_counter
                    && final(engine).execution_contexts@.dom().contains(id->Ok_0.id)
                    && final(engine).execution_contexts@[id->Ok_0.id] == created->Ok_0
                &&& created is Err ==> id->Err_0 == created->Err_0
                    && final(engine).execution_contexts == engine.execution_contexts
                &&& other != engine.execution_context_id_counter
                    && engine.execution_contexts@.dom().contains(other) ==> final(engine).execution_contexts@.dom().contains(
                other,
                ) && final(engine).execution_contexts@[other] == engine.execution_contexts@[other]
                &&& final(engine).deployed_functions == engine.deployed_functions
            },
{
}

/// A context has to be made for a function unless it is deployed and has one that is not marked.
pub proof fn contexts_are_made_where_missing<I>(
    engine: &Engine<I>,
    function_id: &FunctionId,
    need: bool,
)
    requires
        call_ensures(Engine::<I>::need_to_create_context, (engine, function_id), need),
    ensures
        !engine.deployed_functions@.dom().contains(function_id@) ==> need,
        engine.deployed_functions@.dom().contains(function_id@)
            && !engine.execution_contexts@.dom().contains(
            engine.deployed_functions@[function_id@].id,
        ) ==> need,
        engine.deployed_functions@.dom().contains(function_id@)
            && engine.execution_contexts@.dom().contains(
            engine.deployed_functions@[function_id@].id,
        ) ==> need
            == engine.execution_contexts@[engine.deployed_functions@[function_id@].id].needs_recreate,
{
}

/// What a function sends, as an error or as its response, is kept byte by byte in its own place, and
/// the other place stays as it is.
pub proof fn sent_bytes_are_kept_in_their_places<S, D, L>(memory: &[u8], addr: i64, len: i64)
    requires
        0 <= addr,
        0 <= len,
        addr + len <= memory@.len(),
    ensures
        forall|env: &mut ExecutionEnv<S, D, L>| #[trigger]
            call_ensures(
                ExecutionEnv::<S, D, L>::handle_send_error,
                (env, memory, addr, len),
                (),
            ) ==> final(env).rpc_response == env.rpc_response && final(env).execution_error is Some
                && final(env).execution_error->0@.len() == len && forall|i: int|
                0 <= i < len ==> #[trigger] final(env).execution_error->0@[i] == memory@[addr + i],
        forall|env: &mut ExecutionEnv<S, D, L>| #[trigger]
            call_ensures(
                ExecutionEnv::<S, D, L>::handle_send_rpc_response,
                (env, memory, addr, len),
                (),
            ) ==> final(env).execution_error == env.execution_error && final(env).rpc_response is Some
                && final(env).rpc_response->0@.len() == len && forall|i: int|
                0 <= i < len ==> #[trigger] final(env).rpc_response->0@[i] == memory@[addr + i],
{
}

/// The functions that are listed are those that are deployed and have a context, each once.
pub proof fn listed_functions_have_contexts<I>(
    engine: &Engine<I>,
    functions: Vec<FunctionId>,
    name: Seq<char>,
    i: int,
    j: int,
)
    requires
        call_ensures(Engine::<I>::list_functions, (engine,), functions),
    ensures
        (exists|k: int| 0 <= k < functions@.len() && (#[trigger] functions@[k]).id@ == name)
            <==> engine.deployed_functions@.dom().contains(name)
            && engine.execution_contexts@.dom().contains(engine.deployed_functions@[name].id),
        0 <= i < j < functions@.len() ==> functions@[i].id@ != functions@[j].id@,
{
    let names = function_names(functions@);
    assert(names.contains(name) <==> engine.has_context(name));
    if names.contains(name) {
        let k = names.index_of(name);
        assert(functions@[k].id@ == name);
    }
    if exists|k: int| 0 <= k < functions@.len() && (#[trigger] functions@[k]).id@ == name {
        let k = choose|k: int| 0 <= k < functions@.len() && (#[trigger] functions@[k]).id@ == name;
        assert(names[k] == name);
    }
    if 0 <= i < j < functions@.len() {
        assert(names[i] != names[j]);
    }
}

/// Removing a context removes that one and no other; giving a function another context gives what it had
/// before and changes no other function.
pub proof fn contexts_are_changed_one_by_one<I>(
    id: ExecutionContextId,
    function_id: FunctionId,
    previous: Option<ExecutionContextId>,
    other: u64,
    name: Seq<char>,
)
    ensures
        forall|engine: &mut Engine<I>| #[trigger]
            call_ensures(Engine::<I>::remove_execution_context, (engine, &id), ()) ==> {
                &&& !final(engine).execution_contexts@.dom().contains(id.id)
                &&& other != id.id && engine.execution_contexts@.dom().contains(other) ==> final(
                    engine
                ).execution_contexts@.dom().contains(other) && final(
                    engine
                ).execution_contexts@[other] == engine.execution_contexts@[other]
                &&& final(engine).deployed_functions == engine.deployed_functions
            },
        forall|engine: &mut Engine<I>| #[trigger]
            call_ensures(
                Engine::<I>::update_function_execution_context,
                (engine, function_id, id),
                previous,
            ) ==> {
                &&& final(engine).deployed_functions@.dom().contains(function_id@)
                &&& final(engine).deployed_functions@[function_id@] == id
                &&& previous is Some <==> engine.deployed_functions@.dom().contains(function_id@)
                &&& previous is Some ==> previous->0 == engine.deployed_functions@[function_id@]
                &&& name != function_id@ && engine.deployed_functions@.dom().contains(name)
                    ==> final(engine).deployed_functions@.dom().contains(name) && final(
                    engine
                ).deployed_functions@[name] == engine.deployed_functions@[name]
                &&& final(engine).execution_contexts == engine.execution_contexts
            },
{
}

/// A context that is made or made anew has the instance that was made, is not marked and has nothing to
/// drop; where no instance could be made the reason is told and nothing changes.
pub proof fn fresh_contexts_are_clean<I>(
    function_id: FunctionId,
    compiled: Result<CompilerMetadata, CompilerError>,
    instance: Result<I, String>,
    context: Result<ExecutionContext<I>, FunctionInvokeError>,
    done: Result<(), FunctionInvokeError>,
)
    requires
        call_ensures(ExecutionContext::<I>::new, (function_id, compiled, instance), context),
    ensures
        context is Ok <==> compiled is Ok && instance is Ok,
        context is Ok ==> context->Ok_0.instance == instance->Ok_0 && context->Ok_0.function_id
            == function_id && context->Ok_0.compiler_metadata == compiled->Ok_0
            && !context->Ok_0.needs_recreate && context->Ok_0.futures_to_drop@.len() == 0
            && context->Ok_0.streams_to_drop@.len() == 0,
        compiled is Err ==> context == Err::<ExecutionContext<I>, _>(
            FunctionInvokeError::FailedToCompile(compiled->Err_0),
        ),
        compiled is Ok && instance is Err ==> context == Err::<ExecutionContext<I>, _>(
            FunctionInvokeError::FailedToInstantiate(instance->Err_0),
        ),
        forall|c: &mut ExecutionContext<I>| #[trigger]
            call_ensures(ExecutionContext::<I>::reset, (c, instance), done) ==> {
                &&& done is Ok <==> instance is Ok
                &&& instance is Ok ==> final(c).instance == instance->Ok_0
                    && !final(c).needs_recreate && final(c).futures_to_drop@.len() == 0 && final(
                    c
                ).streams_to_drop@.len() == 0 && final(c).function_id == c.function_id
                &&& instance is Err ==> *final(c) == *c && done->Err_0
                    == FunctionInvokeError::FailedToInstantiate(instance->Err_0)
            },
{
}

/// A stream is noted to be dropped in its own context, after those that already are.
pub proof fn streams_are_dropped_in_their_contexts<I>(
    id: ExecutionContextId,
    index: i64,
    other: u64,
)
    ensures
        forall|engine: &mut Engine<I>| #[trigger]
            call_ensures(Engine::<I>::stream_drop, (engine, &id, index), ()) ==> {
                let before = engine.execution_contexts@[id.id].streams_to_drop@;
                let after = final(engine).execution_contexts@[id.id].streams_to_drop@;
                &&& after.len() == before.len() + 1
                &&& after.last() == index
                &&& after.drop_last() =~= before
                &&& other != id.id && engine.execution_contexts@.dom().contains(other) ==> final(
                    engine
                ).execution_contexts@[other] == engine.execution_contexts@[other]
            },
{
}

/// What a function runs with is handed on whole to the next run, without what the last one sent; what is
/// left behind has nothing more to run with.
pub proof fn environments_are_handed_on<S, D, L>(
    env: ExecutionEnv<S, D, L>,
)
    ensures
        forall|old_env: &mut ExecutionEnv<S, D, L>| #[trigger]
            call_ensures(ExecutionEnv::<S, D, L>::reset, (old_env,), env) ==> {
                &&& env.execution_context_id == old_env.execution_context_id
                &&& env.function_id.id@ == old_env.function_id.id@
                &&& env.execution_error is None
                &&& env.rpc_response is None
                &&& env.storage == old_env.storage
                &&& env.sql == old_env.sql
                &&& env.rpc == old_env.rpc
                &&& env.logger == old_env.logger
                &&& env.allow_fetch
                &&& env.allow_log
                &&& final(old_env).logger is None
                &&& final(old_env).execution_error == old_env.execution_error
                &&& final(old_env).rpc_response == old_env.rpc_response
            },
{
}

/// A function that is not deployed is given a number when it is called or reloaded, and has no code yet;
/// where the contexts are locked away the reason is told.
pub proof fn unknown_functions_have_no_code<I>(
    function_id: &FunctionId,
    step: Result<InvokeStep, FunctionInvokeError>,
    locked: Result<(), String>,
)
    ensures
        forall|engine: &mut Engine<I>| #[trigger]
            call_ensures(Engine::<I>::invoke_service_raw, (engine, function_id, locked), step) ==> {
                &&& locked matches Err(reason) ==> step == Err::<InvokeStep, _>(
                    FunctionInvokeError::RuntimeError(
                        FunctionInvokeInternalRuntimeError::ExecutionContextsFailedToLock { reason },
                    ),
                )
                &&& final(engine).execution_contexts == engine.execution_contexts
                &&& final(engine).deployed_functions@.dom().contains(function_id@)
                &&& !engine.deployed_functions@.dom().contains(function_id@) ==> final(
                    engine
                ).deployed_functions@[function_id@].id == engine.execution_context_id_counter && (
                engine.execution_context_id_counter < u64::MAX ==> final(
                    engine
                ).execution_context_id_counter == engine.execution_context_id_counter + 1)
                &&& !engine.deployed_functions@.dom().contains(function_id@) && locked is Ok
                    && !engine.execution_contexts@.dom().contains(
                    engine.execution_context_id_counter,
                ) ==> step == Err::<InvokeStep, _>(FunctionInvokeError::CodeNotFound)
            },
        forall|engine: &mut Engine<I>| #[trigger]
            call_ensures(Engine::<I>::reload, (engine, function_id), ())
                && !engine.deployed_functions@.dom().contains(function_id@) ==> {
                &&& final(engine).deployed_functions@.dom().contains(function_id@)
                &&& final(engine).deployed_functions@[function_id@].id
                    == engine.execution_context_id_counter
                &&& !engine.execution_contexts@.dom().contains(engine.execution_context_id_counter)
                    ==> final(engine).execution_contexts@ == engine.execution_contexts@
            },
{
}

} // verus!
