//! The directory of definitions: which files define functions, and what a definition deploys.
use vstd::prelude::*;

use crate::cron;
use crate::cron::CronSchedule;
use crate::definitions::bindings;
use crate::definitions::bindings::SqlBindingConfigLocation;
use crate::definitions::config;
use crate::definitions::config::{
    EnvValueSource, EnvVariableConfig, FunctionCodeConfig, FunctionConfig,
};
use crate::definitions::triggers::{CronTrigger, FunctionHttpListener};
use crate::function::id::{FunctionDeploymentId, FunctionId};
use crate::table::{Table, TableKey};
use crate::text;
use crate::text::{chars_of, concat3, lowercase_text, owned, same_text, strip_suffix, text_of};

verus! {

/// What the name of a file ends in that defines a function.
pub const DEFINITION_FILE_SUFFIX: &'static str = ".fx.yaml";

/// Why a file does not define a function.
#[derive(Clone, Copy, Debug, PartialEq, Eq, Structural)]
pub enum FunctionIdDetectionError {
    /// config path missing .fx.yaml extension
    PathMissingExtension,
}

/// The file that defines a function, relative to the directory of definitions.
pub open spec fn definition_file(function_id: Seq<char>) -> Seq<char> {
    function_id + DEFINITION_FILE_SUFFIX@
}

/// The function that a file defines: `path` is relative to the directory of definitions.
pub fn path_to_function_id(path: &str) -> (function_id: Result<
    FunctionId,
    FunctionIdDetectionError,
>)
    ensures
        match function_id {
            Ok(id) => path@ == definition_file(id@),
            Err(err) => err == FunctionIdDetectionError::PathMissingExtension && forall|
                other: Seq<char>,
            | path@ != #[trigger] definition_file(other),
        },
{
    match strip_suffix(path, DEFINITION_FILE_SUFFIX) {
        Some(id) => {
            assert(path@ =~= definition_file(id@));
            Ok(FunctionId::new(id))
        },
        None => {
            proof {
                assert forall|id: Seq<char>| path@ != #[trigger] definition_file(id) by {
                    if path@ == definition_file(id) {
                        assert(path@.subrange(
                            path@.len() - DEFINITION_FILE_SUFFIX@.len(),
                            path@.len() as int,
                        ) =~= DEFINITION_FILE_SUFFIX@);
                    }
                }
            }
            Err(FunctionIdDetectionError::PathMissingExtension)
        },
    }
}

/// Every function has one definition file, and no two functions share theirs.
pub proof fn definition_files_name_functions(a: Seq<char>, b: Seq<char>)
    ensures
        definition_file(a) == definition_file(b) ==> a == b,
        text::has_suffix(definition_file(a), DEFINITION_FILE_SUFFIX@),
{
    if definition_file(a) == definition_file(b) {
        assert(definition_file(a).len() == a.len() + DEFINITION_FILE_SUFFIX@.len());
        assert(definition_file(b).len() == b.len() + DEFINITION_FILE_SUFFIX@.len());
        assert(a =~= definition_file(a).subrange(0, a.len() as int));
        assert(b =~= definition_file(b).subrange(0, b.len() as int));
    }
    let whole = definition_file(a);
    let suffix = DEFINITION_FILE_SUFFIX@;
    assert(whole.subrange(whole.len() - suffix.len(), whole.len() as int) =~= suffix);
}

/// An entry that was found when the directory of definitions was walked, its path relative to it;
/// `readable` is false where the walk failed at it.
#[derive(Debug)]
pub struct ScanEntry {
    pub readable: bool,
    pub is_file: bool,
    pub path: String,
}

/// The function whose definition is to be loaded for an entry, if there is one.
pub fn scan_entry(entry: &ScanEntry) -> (load: Option<FunctionId>)
    ensures
        match load {
            Some(id) => entry.readable && entry.is_file && entry.path@ == definition_file(id@),
            None => !entry.readable || !entry.is_file || forall|other: Seq<char>|
                entry.path@ != #[trigger] definition_file(other),
        },
{
    if !entry.readable || !entry.is_file {
        return None;
    }
    match path_to_function_id(entry.path.as_str()) {
        Ok(id) => Some(id),
        Err(_) => None,
    }
}

/// The functions that entries define, in the order of the entries.
pub open spec fn defined(entries: Seq<ScanEntry>) -> Seq<Seq<char>>
    decreases entries.len(),
{
    if entries.len() == 0 {
        Seq::empty()
    } else {
        let rest = defined(entries.drop_last());
        let last = entries.last();
        if last.readable && last.is_file && text::has_suffix(last.path@, DEFINITION_FILE_SUFFIX@) {
            rest.push(
                last.path@.subrange(0, last.path@.len() - DEFINITION_FILE_SUFFIX@.len()),
            )
        } else {
            rest
        }
    }
}

/// The functions whose definitions are to be loaded when the directory was walked, in the order of
/// the walk.
pub fn scan_definitions(entries: &Vec<ScanEntry>) -> (load: Vec<FunctionId>)
    ensures
        load@.map_values(|id: FunctionId| id@) == defined(entries@),
{
    let mut load: Vec<FunctionId> = Vec::new();
    let mut i: usize = 0;
    while i < entries.len()
        invariant
            i <= entries@.len(),
            load@.map_values(|id: FunctionId| id@) == defined(entries@.take(i as int)),
        decreases entries@.len() - i,
    {
        let ghost before = load@.map_values(|id: FunctionId| id@);
        let ghost entry = entries@[i as int];
        let ghost suffix = DEFINITION_FILE_SUFFIX@;
        proof {
            let next = entries@.take(i + 1);
            assert(next.drop_last() =~= entries@.take(i as int));
            assert(next.last() == entry);
        }
        match scan_entry(&entries[i]) {
            Some(id) => {
                proof {
                    let stem = entry.path@.subrange(0, entry.path@.len() - suffix.len());
                    definition_files_name_functions(id@, id@);
                    assert(stem =~= id@);
                }
                load.push(id);
                assert(load@.map_values(|id: FunctionId| id@) =~= before.push(id@));
            },
            None => {
                proof {
                    if text::has_suffix(entry.path@, suffix) {
                        let stem = entry.path@.subrange(0, entry.path@.len() - suffix.len());
                        assert(entry.path@ =~= definition_file(stem));
                    }
                }
            },
        }
        i = i + 1;
    }
    assert(entries@.take(entries@.len() as int) =~= entries@);
    load
}

/// The paths that have changed, from what the file system reported: an access changes nothing.
pub fn changed_paths(access: bool, paths: Vec<String>) -> (changed: Vec<String>)
    ensures
        changed@ == (if access {
            Seq::<String>::empty()
        } else {
            paths@
        }),
{
    if access {
        Vec::new()
    } else {
        paths
    }
}

/// What a change of a file asks for.
#[derive(Debug)]
pub enum ChangeAction {
    Ignore,
    /// The function is gone.
    Remove(FunctionId),
    /// The definition of the function is to be loaded.
    Load(FunctionId),
}

/// What a change of a file asks for: `path` is relative to the directory of definitions,
/// `exists` and `is_file` say what is there now.
pub fn path_changed(path: &str, exists: bool, is_file: bool) -> (action: ChangeAction)
    ensures
        match action {
            ChangeAction::Remove(id) => path@ == definition_file(id@) && !exists,
            ChangeAction::Load(id) => path@ == definition_file(id@) && exists && is_file,
            ChangeAction::Ignore => (exists && !is_file) || forall|other: Seq<char>|
                path@ != #[trigger] definition_file(other),
        },
{
    match path_to_function_id(path) {
        Err(_) => ChangeAction::Ignore,
        Ok(id) => if !exists {
            ChangeAction::Remove(id)
        } else if is_file {
            ChangeAction::Load(id)
        } else {
            ChangeAction::Ignore
        },
    }
}

/// A path below another: an absolute one stands for itself.
pub open spec fn joined(base: Seq<char>, part: Seq<char>) -> Seq<char> {
    if (part.len() > 0 && part[0] == '/') || base.len() == 0 {
        part
    } else if base.last() == '/' {
        base + part
    } else {
        base + "/"@ + part
    }
}

/// A path below another: an absolute one stands for itself.
pub fn join_path(base: &str, part: &str) -> (path: String)
    ensures
        path@ == joined(base@, part@),
{
    let whole = chars_of(base);
    let piece = chars_of(part);
    if (piece.len() > 0 && piece[0] == '/') || whole.len() == 0 {
        owned(part)
    } else if whole[whole.len() - 1] == '/' {
        let mut path = owned(base);
        path.push_str(part);
        path
    } else {
        concat3(base, "/", part)
    }
}

/// Where the code of a function is read from.
#[derive(Debug)]
pub enum ModuleSource {
    File(String),
    Inline(Vec<u8>),
    /// The file of the function's name with the extension `wasm`, next to its definition.
    BesideDefinition,
}

/// A path without the slashes and single dots that it ends in, which name nothing.
pub open spec fn trimmed(path: Seq<char>) -> Seq<char>
    decreases path.len(),
{
    let len = path.len() as int;
    if len > 0 && path[len - 1] == '/' {
        trimmed(path.drop_last())
    } else if len > 1 && path[len - 1] == '.' && path[len - 2] == '/' {
        trimmed(path.drop_last())
    } else {
        path
    }
}

/// Whether a trimmed path ends in the name of a file, and not in dots that stand for a directory.
pub open spec fn names_file(path: Seq<char>) -> bool {
    let len = path.len() as int;
    &&& len > 0
    &&& !(len == 1 && path[0] == '.')
    &&& !(len == 2 && path[0] == '.' && path[1] == '.')
    &&& !(len > 2 && path[len - 1] == '.' && path[len - 2] == '.' && path[len - 3] == '/')
}

/// The path of the code beside a file: the extension `wasm` behind the name of the file. A path that
/// names no file is left as it is.
pub open spec fn with_wasm(path: Seq<char>) -> Seq<char> {
    if names_file(trimmed(path)) {
        trimmed(path) + ".wasm"@
    } else {
        path
    }
}

/// The path of the code beside a file.
fn add_wasm(path: &str) -> (extended: String)
    ensures
        extended@ == with_wasm(path@),
{
    let mut chars = chars_of(path);
    while chars.len() > 0 && (chars[chars.len() - 1] == '/' || (chars.len() > 1 && chars[chars.len()
        - 1] == '.' && chars[chars.len() - 2] == '/'))
        invariant
            trimmed(chars@) == trimmed(path@),
        decreases chars@.len(),
    {
        let ghost before = chars@;
        chars.pop();
        assert(chars@ =~= before.drop_last());
    }
    let len: usize = chars.len();
    let one_dot = len == 1 && chars[0] == '.';
    let two_dots = len == 2 && chars[0] == '.' && chars[1] == '.';
    let above = len > 2 && chars[len - 1] == '.' && chars[len - 2] == '.' && chars[len - 3] == '/';
    if len == 0 || one_dot || two_dots || above {
        owned(path)
    } else {
        let mut file = text_of(&chars);
        file.push_str(".wasm");
        file
    }
}

/// Where the code of a function is read from.
pub fn module_source(code: Option<FunctionCodeConfig>) -> (source: ModuleSource)
    ensures
        source == (match code {
            Some(FunctionCodeConfig::Path(path)) => ModuleSource::File(path),
            Some(FunctionCodeConfig::Inline(bytes)) => ModuleSource::Inline(bytes),
            None => ModuleSource::BesideDefinition,
        }),
{
    match code {
        Some(FunctionCodeConfig::Path(path)) => ModuleSource::File(path),
        Some(FunctionCodeConfig::Inline(bytes)) => ModuleSource::Inline(bytes),
        None => ModuleSource::BesideDefinition,
    }
}

/// The view of an optional text.
pub open spec fn text_view(t: Option<String>) -> Option<Seq<char>> {
    match t {
        Some(t) => Some(t@),
        None => None,
    }
}

fn copy_text(t: &Option<String>) -> (copy: Option<String>)
    ensures
        text_view(copy) == text_view(*t),
{
    match t {
        Some(t) => Some(t.clone()),
        None => None,
    }
}

/// The hosts that the listeners of a configuration are for, in their order.
pub open spec fn listener_hosts(
    triggers: Option<config::FunctionTriggersConfig>,
) -> Seq<Option<Seq<char>>> {
    match triggers {
        None => Seq::empty(),
        Some(triggers) => config::listed(triggers.http).map_values(
            |endpoint: config::FunctionHttpEndpointConfig| text_view(endpoint.host),
        ),
    }
}

/// The listeners of a function.
pub fn http_listeners(triggers: &Option<config::FunctionTriggersConfig>) -> (listeners: Vec<
    FunctionHttpListener,
>)
    ensures
        listeners@.map_values(|listener: FunctionHttpListener| text_view(listener.host))
            == listener_hosts(*triggers),
{
    let mut listeners: Vec<FunctionHttpListener> = Vec::new();
    if let Some(triggers) = triggers {
        if let Some(endpoints) = &triggers.http {
            let ghost whole = endpoints@.map_values(
                |endpoint: config::FunctionHttpEndpointConfig| text_view(endpoint.host),
            );
            let mut i: usize = 0;
            while i < endpoints.len()
                invariant
                    i <= endpoints@.len(),
                    whole == endpoints@.map_values(
                        |endpoint: config::FunctionHttpEndpointConfig| text_view(endpoint.host),
                    ),
                    listeners@.map_values(
                        |listener: FunctionHttpListener| text_view(listener.host),
                    ) =~= whole.take(i as int),
                decreases endpoints@.len() - i,
            {
                let ghost before = listeners@.map_values(
                    |listener: FunctionHttpListener| text_view(listener.host),
                );
                listeners.push(FunctionHttpListener { host: copy_text(&endpoints[i].host) });
                assert(listeners@.map_values(
                    |listener: FunctionHttpListener| text_view(listener.host),
                ) =~= before.push(whole[i as int]));
                i = i + 1;
            }
        }
    }
    assert(listeners@.map_values(|listener: FunctionHttpListener| text_view(listener.host))
        =~= listener_hosts(*triggers));
    listeners
}

/// The environment of a function: `files` holds for each variable what is in its file. Of a name
/// that comes again the last value stays.
pub open spec fn env_values(variables: Seq<EnvVariableConfig>, files: Seq<String>) -> Map<
    Seq<char>,
    Seq<char>,
>
    decreases variables.len(),
{
    if variables.len() == 0 {
        Map::empty()
    } else {
        let value = match variables.last().source {
            EnvValueSource::Value(value) => value@,
            EnvValueSource::File(_) => files[variables.len() - 1]@,
        };
        env_values(variables.drop_last(), files).insert(variables.last().id@, value)
    }
}

/// Whether a table of texts holds exactly the given ones.
pub open spec fn holds(table: Table<String, String>, texts: Map<Seq<char>, Seq<char>>) -> bool {
    &&& table.wf()
    &&& table@.dom() =~= texts.dom()
    &&& forall|k: Seq<char>| #[trigger] table@.dom().contains(k) ==> table@[k]@ == texts[k]
}

/// The environment of a function; `files` holds for each variable what is in its file.
pub fn env_table(variables: &Vec<EnvVariableConfig>, files: &Vec<String>) -> (env: Table<
    String,
    String,
>)
    requires
        files@.len() == variables@.len(),
    ensures
        holds(env, env_values(variables@, files@)),
{
    let mut env: Table<String, String> = Table::new();
    let mut i: usize = 0;
    while i < variables.len()
        invariant
            i <= variables@.len(),
            files@.len() == variables@.len(),
            holds(env, env_values(variables@.take(i as int), files@)),
        decreases variables@.len() - i,
    {
        let ghost next = variables@.take(i + 1);
        proof {
            assert(next.drop_last() =~= variables@.take(i as int));
            assert(next.last() == variables@[i as int]);
        }
        let value = match &variables[i].source {
            EnvValueSource::Value(value) => value.clone(),
            EnvValueSource::File(_) => files[i].clone(),
        };
        env.insert(variables[i].id.clone(), value);
        i = i + 1;
    }
    assert(variables@.take(variables@.len() as int) =~= variables@);
    env
}

/// A digit of a random id.
pub open spec fn is_hex_digit(c: char) -> bool {
    '0' <= c <= '9' || 'a' <= c <= 'f'
}

/// Whether a text is a random id: 32 digits in five groups, with the version and the variant of a
/// random UUID.
pub open spec fn is_random_id(id: Seq<char>) -> bool {
    &&& id.len() == 36
    &&& forall|i: int|
        0 <= i < 36 ==> if i == 8 || i == 13 || i == 18 || i == 23 {
            #[trigger] id[i] == '-'
        } else {
            is_hex_digit(id[i])
        }
    &&& id[14] == '4'
    &&& id[19] == '8' || id[19] == '9' || id[19] == 'a' || id[19] == 'b'
}

/// `uuid::Uuid::new_v4`, written out: hexadecimal digits in five groups, the version and the variant
/// set. Which one it is rests on chance; that no two are the same is likely only.
#[verifier::external_body]
fn random_id() -> (id: String)
    ensures
        is_random_id(id@),
{
    uuid::Uuid::new_v4().to_string()
}

/// Whether `id` is something that drawing a random id may give.
pub closed spec fn is_drawn_id(id: String) -> bool {
    call_ensures(random_id, (), id)
}

/// Where a database lives: in memory, or in a file.
pub enum DatabasePlace {
    Memory,
    File(Seq<char>),
}

/// Where the database of a binding lives: `:memory:` is no file, every other path is taken below
/// the directory of the configuration.
pub open spec fn database_place(path: Seq<char>, config_dir: Seq<char>) -> DatabasePlace {
    if path == ":memory:"@ {
        DatabasePlace::Memory
    } else {
        DatabasePlace::File(joined(config_dir, path))
    }
}

/// Whether a binding is one for a database at the given place, under ids that were drawn.
pub open spec fn binding_at(
    binding: bindings::SqlBindingConfig,
    place: DatabasePlace,
    busy_timeout_ms: Option<u64>,
) -> bool {
    &&& is_drawn_id(binding.connection_id) && is_random_id(binding.connection_id@)
    &&& binding.busy_timeout_ms == busy_timeout_ms
    &&& (match place {
        DatabasePlace::Memory => binding.location matches SqlBindingConfigLocation::InMemory(id)
            && is_drawn_id(id) && is_random_id(id@),
        DatabasePlace::File(path) => binding.location matches SqlBindingConfigLocation::Path(p)
            && p@ == path,
    })
}

/// The binding of a database: `connection_id` names its connection, `memory_id` the database
/// itself where it lives in memory.
pub fn sql_binding(
    configured: &config::SqlBindingConfig,
    config_dir: &str,
    connection_id: String,
    memory_id: String,
) -> (binding: bindings::SqlBindingConfig)
    ensures
        binding.connection_id == connection_id,
        binding.busy_timeout_ms == configured.busy_timeout_ms,
        match database_place(configured.path@, config_dir@) {
            DatabasePlace::Memory => binding.location == SqlBindingConfigLocation::InMemory(
                memory_id,
            ),
            DatabasePlace::File(path) => binding.location matches SqlBindingConfigLocation::Path(p)
                && p@ == path,
        },
{
    let location = if same_text(configured.path.as_str(), ":memory:") {
        SqlBindingConfigLocation::InMemory(memory_id)
    } else {
        SqlBindingConfigLocation::Path(join_path(config_dir, configured.path.as_str()))
    };
    bindings::SqlBindingConfig {
        connection_id,
        location,
        busy_timeout_ms: configured.busy_timeout_ms,
    }
}

/// The databases of a list of bindings by name; of a name that comes again the last stays.
pub open spec fn database_places(
    configured: Seq<config::SqlBindingConfig>,
    config_dir: Seq<char>,
) -> Map<Seq<char>, (DatabasePlace, Option<u64>)>
    decreases configured.len(),
{
    if configured.len() == 0 {
        Map::empty()
    } else {
        database_places(configured.drop_last(), config_dir).insert(
            configured.last().id@,
            (
                database_place(configured.last().path@, config_dir),
                configured.last().busy_timeout_ms,
            ),
        )
    }
}

/// The databases of a function, each with a connection of its own.
pub fn sql_bindings(configured: &Vec<config::SqlBindingConfig>, config_dir: &str) -> (bound: Table<
    String,
    bindings::SqlBindingConfig,
>)
    ensures
        bound.wf(),
        bound@.dom() =~= database_places(configured@, config_dir@).dom(),
        forall|k: Seq<char>| #[trigger]
            bound@.dom().contains(k) ==> binding_at(
                bound@[k],
                database_places(configured@, config_dir@)[k].0,
                database_places(configured@, config_dir@)[k].1,
            ),
{
    let mut bound: Table<String, bindings::SqlBindingConfig> = Table::new();
    let mut i: usize = 0;
    while i < configured.len()
        invariant
            i <= configured@.len(),
            bound.wf(),
            bound@.dom() =~= database_places(configured@.take(i as int), config_dir@).dom(),
            forall|k: Seq<char>| #[trigger]
                bound@.dom().contains(k) ==> binding_at(
                    bound@[k],
                    database_places(configured@.take(i as int), config_dir@)[k].0,
                    database_places(configured@.take(i as int), config_dir@)[k].1,
                ),
        decreases configured@.len() - i,
    {
        let ghost next = configured@.take(i + 1);
        proof {
            assert(next.drop_last() =~= configured@.take(i as int));
            assert(next.last() == configured@[i as int]);
        }
        let binding = sql_binding(&configured[i], config_dir, random_id(), random_id());
        bound.insert(configured[i].id.clone(), binding);
        i = i + 1;
    }
    assert(configured@.take(configured@.len() as int) =~= configured@);
    bound
}

/// The buckets of a list of bindings by name; of a name that comes again the last stays.
pub open spec fn buckets(configured: Seq<config::BlobBindingConfig>) -> Map<Seq<char>, Seq<char>>
    decreases configured.len(),
{
    if configured.len() == 0 {
        Map::empty()
    } else {
        buckets(configured.drop_last()).insert(
            configured.last().id@,
            configured.last().bucket@,
        )
    }
}

/// The buckets of a function.
pub fn blob_bindings(configured: &Vec<config::BlobBindingConfig>) -> (bound: Table<
    String,
    bindings::BlobBindingConfig,
>)
    ensures
        bound.wf(),
        bound@.dom() =~= buckets(configured@).dom(),
        forall|k: Seq<char>| #[trigger]
            bound@.dom().contains(k) ==> bound@[k].bucket@ == buckets(configured@)[k],
{
    let mut bound: Table<String, bindings::BlobBindingConfig> = Table::new();
    let mut i: usize = 0;
    while i < configured.len()
        invariant
            i <= configured@.len(),
            bound.wf(),
            bound@.dom() =~= buckets(configured@.take(i as int)).dom(),
            forall|k: Seq<char>| #[trigger]
                bound@.dom().contains(k) ==> bound@[k].bucket@ == buckets(
                    configured@.take(i as int),
                )[k],
        decreases configured@.len() - i,
    {
        let ghost next = configured@.take(i + 1);
        proof {
            assert(next.drop_last() =~= configured@.take(i as int));
            assert(next.last() == configured@[i as int]);
        }
        bound.insert(
            configured[i].id.clone(),
            bindings::BlobBindingConfig { bucket: configured[i].bucket.clone() },
        );
        i = i + 1;
    }
    assert(configured@.take(configured@.len() as int) =~= configured@);
    bound
}

/// The namespaces of a list of bindings by name; of a name that comes again the last stays.
pub open spec fn namespaces(configured: Seq<config::KvBindingConfig>) -> Map<Seq<char>, Seq<char>>
    decreases configured.len(),
{
    if configured.len() == 0 {
        Map::empty()
    } else {
        namespaces(configured.drop_last()).insert(
            configured.last().id@,
            configured.last().namespace@,
        )
    }
}

/// The namespaces of a function.
pub fn kv_bindings(configured: &Vec<config::KvBindingConfig>) -> (bound: Table<
    String,
    bindings::KvBindingConfig,
>)
    ensures
        bound.wf(),
        bound@.dom() =~= namespaces(configured@).dom(),
        forall|k: Seq<char>| #[trigger]
            bound@.dom().contains(k) ==> bound@[k].namespace@ == namespaces(configured@)[k],
{
    let mut bound: Table<String, bindings::KvBindingConfig> = Table::new();
    let mut i: usize = 0;
    while i < configured.len()
        invariant
            i <= configured@.len(),
            bound.wf(),
            bound@.dom() =~= namespaces(configured@.take(i as int)).dom(),
            forall|k: Seq<char>| #[trigger]
                bound@.dom().contains(k) ==> bound@[k].namespace@ == namespaces(
                    configured@.take(i as int),
                )[k],
        decreases configured@.len() - i,
    {
        let ghost next = configured@.take(i + 1);
        proof {
            assert(next.drop_last() =~= configured@.take(i as int));
            assert(next.last() == configured@[i as int]);
        }
        bound.insert(
            configured[i].id.clone(),
            bindings::KvBindingConfig { namespace: configured[i].namespace.clone() },
        );
        i = i + 1;
    }
    assert(configured@.take(configured@.len() as int) =~= configured@);
    bound
}

/// The host under which a bound function is reached: the one that is configured or else its own
/// name, in lower case.
pub open spec fn binding_host(configured: config::FunctionBindingConfig) -> Seq<char> {
    match configured.host {
        Some(host) => text::lowercase(host@),
        None => text::lowercase(configured.function_id@),
    }
}

/// The functions of a list of bindings by host; of a host that comes again the last stays.
pub open spec fn bound_functions(configured: Seq<config::FunctionBindingConfig>) -> Map<
    Seq<char>,
    Seq<char>,
>
    decreases configured.len(),
{
    if configured.len() == 0 {
        Map::empty()
    } else {
        bound_functions(configured.drop_last()).insert(
            binding_host(configured.last()),
            configured.last().function_id@,
        )
    }
}

/// The functions that a function reaches, by host.
pub fn function_bindings(configured: &Vec<config::FunctionBindingConfig>) -> (bound: Table<
    String,
    bindings::FunctionBindingConfig,
>)
    ensures
        bound.wf(),
        bound@.dom() =~= bound_functions(configured@).dom(),
        forall|k: Seq<char>| #[trigger]
            bound@.dom().contains(k) ==> bound@[k].function_id@ == bound_functions(configured@)[k],
{
    let mut bound: Table<String, bindings::FunctionBindingConfig> = Table::new();
    let mut i: usize = 0;
    while i < configured.len()
        invariant
            i <= configured@.len(),
            bound.wf(),
            bound@.dom() =~= bound_functions(configured@.take(i as int)).dom(),
            forall|k: Seq<char>| #[trigger]
                bound@.dom().contains(k) ==> bound@[k].function_id@ == bound_functions(
                    configured@.take(i as int),
                )[k],
        decreases configured@.len() - i,
    {
        let ghost next = configured@.take(i + 1);
        proof {
            assert(next.drop_last() =~= configured@.take(i as int));
            assert(next.last() == configured@[i as int]);
        }
        let host = match &configured[i].host {
            Some(host) => lowercase_text(host.as_str()),
            None => lowercase_text(configured[i].function_id.as_str()),
        };
        bound.insert(
            host,
            bindings::FunctionBindingConfig {
                function_id: FunctionId::new(configured[i].function_id.clone()),
            },
        );
        i = i + 1;
    }
    assert(configured@.take(configured@.len() as int) =~= configured@);
    bound
}

/// Whether every schedule of a list of triggers is one.
pub open spec fn schedules_valid(configured: Seq<config::FunctionCronTriggerConfig>) -> bool {
    forall|i: int|
        0 <= i < configured.len() ==> cron::is_schedule((#[trigger] configured[i]).schedule@)
}

/// Whether triggers are those of a function for a list of configured ones: each named after the
/// function and itself.
pub open spec fn triggers_for(
    triggers: Seq<CronTrigger>,
    function_id: Seq<char>,
    configured: Seq<config::FunctionCronTriggerConfig>,
) -> bool {
    &&& triggers.len() == configured.len()
    &&& forall|i: int|
        0 <= i < triggers.len() ==> (#[trigger] triggers[i]).id@ == function_id + "::"@
            + configured[i].id@ && triggers[i].schedule.expression@ == configured[i].schedule@
            && triggers[i].schedule.wf()
}

/// The schedules of a function.
pub fn cron_triggers(
    function_id: &FunctionId,
    configured: &Vec<config::FunctionCronTriggerConfig>,
) -> (triggers: Vec<CronTrigger>)
    requires
        schedules_valid(configured@),
    ensures
        triggers_for(triggers@, function_id@, configured@),
{
    let mut triggers: Vec<CronTrigger> = Vec::new();
    let mut i: usize = 0;
    while i < configured.len()
        invariant
            i <= configured@.len(),
            schedules_valid(configured@),
            triggers_for(triggers@, function_id@, configured@.take(i as int)),
        decreases configured@.len() - i,
    {
        let ghost before = triggers@;
        proof {
            assert(cron::is_schedule(configured@[i as int].schedule@));
        }
        let id = concat3(function_id.as_str(), "::", configured[i].id.as_str());
        let schedule = CronSchedule { expression: configured[i].schedule.clone() };
        triggers.push(CronTrigger { id, schedule });
        proof {
            let next = configured@.take(i + 1);
            assert forall|j: int| 0 <= j < triggers@.len() implies (#[trigger] triggers@[j]).id@
                == function_id@ + "::"@ + next[j].id@ && triggers@[j].schedule.expression@
                == next[j].schedule@ && triggers@[j].schedule.wf() by {
                if j < i {
                    assert(before[j].id@ == function_id@ + "::"@ + configured@.take(
                        i as int,
                    )[j].id@);
                }
            }
        }
        i = i + 1;
    }
    assert(configured@.take(configured@.len() as int) =~= configured@);
    triggers
}

/// The schedules of a function, or nothing where an expression among them is none.
pub fn try_cron_triggers(
    function_id: &FunctionId,
    configured: &Vec<config::FunctionCronTriggerConfig>,
) -> (triggers: Option<Vec<CronTrigger>>)
    ensures
        match triggers {
            Some(t) => schedules_valid(configured@) && triggers_for(
                t@,
                function_id@,
                configured@,
            ),
            None => !schedules_valid(configured@),
        },
{
    let mut i: usize = 0;
    while i < configured.len()
        invariant
            i <= configured@.len(),
            forall|j: int|
                0 <= j < i ==> cron::is_schedule((#[trigger] configured@[j]).schedule@),
        decreases configured@.len() - i,
    {
        if CronSchedule::parse(configured[i].schedule.clone()).is_none() {
            assert(!cron::is_schedule(configured@[i as int].schedule@));
            return None;
        }
        i = i + 1;
    }
    Some(cron_triggers(function_id, configured))
}

/// What every worker is told to deploy.
pub struct FunctionDeploy {
    pub function_id: FunctionId,
    pub deployment_id: FunctionDeploymentId,
    pub http_listeners: Vec<FunctionHttpListener>,
    pub env: Table<String, String>,
    pub bindings_sql: Table<String, bindings::SqlBindingConfig>,
    pub bindings_blob: Table<String, bindings::BlobBindingConfig>,
    pub bindings_kv: Table<String, bindings::KvBindingConfig>,
    pub bindings_functions: Table<String, bindings::FunctionBindingConfig>,
}

/// Whether a deployment is what a configuration asks for.
pub open spec fn deploys(
    deploy: FunctionDeploy,
    function_id: Seq<char>,
    configured: FunctionConfig,
    config_dir: Seq<char>,
    files: Seq<String>,
) -> bool {
    let bound = config::bindings_or_empty(configured);
    let places = database_places(config::listed(bound.sql), config_dir);
    &&& deploy.function_id@ == function_id
    &&& deploy.http_listeners@.map_values(
        |listener: FunctionHttpListener| text_view(listener.host),
    ) == listener_hosts(configured.triggers)
    &&& holds(deploy.env, env_values(config::listed(configured.env), files))
    &&& deploy.bindings_sql.wf() && deploy.bindings_sql@.dom() =~= places.dom()
    &&& forall|k: Seq<char>| #[trigger]
        deploy.bindings_sql@.dom().contains(k) ==> binding_at(
            deploy.bindings_sql@[k],
            places[k].0,
            places[k].1,
        )
    &&& deploy.bindings_blob.wf() && deploy.bindings_blob@.dom() =~= buckets(
        config::listed(bound.blob),
    ).dom()
    &&& forall|k: Seq<char>| #[trigger]
        deploy.bindings_blob@.dom().contains(k) ==> deploy.bindings_blob@[k].bucket@ == buckets(
            config::listed(bound.blob),
        )[k]
    &&& deploy.bindings_kv.wf() && deploy.bindings_kv@.dom() =~= namespaces(
        config::listed(bound.kv),
    ).dom()
    &&& forall|k: Seq<char>| #[trigger]
        deploy.bindings_kv@.dom().contains(k) ==> deploy.bindings_kv@[k].namespace@ == namespaces(
            config::listed(bound.kv),
        )[k]
    &&& deploy.bindings_functions.wf() && deploy.bindings_functions@.dom() =~= bound_functions(
        config::listed(bound.functions),
    ).dom()
    &&& forall|k: Seq<char>| #[trigger]
        deploy.bindings_functions@.dom().contains(k)
            ==> deploy.bindings_functions@[k].function_id@ == bound_functions(
            config::listed(bound.functions),
        )[k]
}

/// What a definition asks for: what is deployed, and the schedules after which it is called. There
/// are none where an expression among them is no schedule.
pub struct AppliedConfig {
    pub deploy: FunctionDeploy,
    pub schedule: Option<Vec<CronTrigger>>,
}

/// Turns definitions into deployments and numbers them.
pub struct DefinitionsMonitor {
    pub functions_directory: String,
    pub deployment_id_counter: u64,
}

impl DefinitionsMonitor {
    /// A monitor for the functions directory of a server, taken below the directory of the
    /// server's configuration.
    pub fn new(config_dir: &str, functions_dir: &str) -> (monitor: Self)
        ensures
            monitor.functions_directory@ == joined(config_dir@, functions_dir@),
            monitor.deployment_id_counter == 0,
    {
        DefinitionsMonitor {
            functions_directory: join_path(config_dir, functions_dir),
            deployment_id_counter: 0,
        }
    }

    /// The number of the next deployment; none was given before, and none is given again.
    pub fn next_deployment_id(&mut self) -> (id: FunctionDeploymentId)
        requires
            old(self).deployment_id_counter < u64::MAX,
        ensures
            id.id == old(self).deployment_id_counter,
            final(self).deployment_id_counter == old(self).deployment_id_counter + 1,
            final(self).functions_directory == old(self).functions_directory,
    {
        let id = FunctionDeploymentId::new(self.deployment_id_counter);
        self.deployment_id_counter = self.deployment_id_counter + 1;
        id
    }

    /// Where the files of a function lie, but for their extensions.
    pub fn function_id_to_path(&self, function_id: &FunctionId) -> (path: String)
        ensures
            path@ == joined(self.functions_directory@, function_id@),
    {
        join_path(self.functions_directory.as_str(), function_id.as_str())
    }

    /// The file that holds the code of a function whose definition does not say where it is.
    pub fn code_path(&self, function_id: &FunctionId) -> (path: String)
        ensures
            path@ == with_wasm(joined(self.functions_directory@, function_id@)),
    {
        let path = self.function_id_to_path(function_id);
        add_wasm(path.as_str())
    }

    /// What a definition deploys: `config_dir` is the directory of the definition, `files` holds
    /// for each variable of its environment what is in the variable's file.
    pub fn apply_config(
        &mut self,
        function_id: &FunctionId,
        configured: &FunctionConfig,
        config_dir: &str,
        files: &Vec<String>,
    ) -> (deploy: FunctionDeploy)
        requires
            old(self).deployment_id_counter < u64::MAX,
            files@.len() == config::listed(configured.env).len(),
        ensures
            deploys(deploy, function_id@, *configured, config_dir@, files@),
            deploy.deployment_id.id == old(self).deployment_id_counter,
            final(self).deployment_id_counter == old(self).deployment_id_counter + 1,
            final(self).functions_directory == old(self).functions_directory,
    {
        let deployment_id = self.next_deployment_id();
        let listeners = http_listeners(&configured.triggers);
        let env = match &configured.env {
            Some(variables) => env_table(variables, files),
            None => Table::new(),
        };
        let mut bindings_sql: Table<String, bindings::SqlBindingConfig> = Table::new();
        let mut bindings_blob: Table<String, bindings::BlobBindingConfig> = Table::new();
        let mut bindings_kv: Table<String, bindings::KvBindingConfig> = Table::new();
        let mut bindings_functions: Table<String, bindings::FunctionBindingConfig> = Table::new();
        if let Some(bound) = &configured.bindings {
            if let Some(sql) = &bound.sql {
                bindings_sql = sql_bindings(sql, config_dir);
            }
            if let Some(blob) = &bound.blob {
                bindings_blob = blob_bindings(blob);
            }
            if let Some(kv) = &bound.kv {
                bindings_kv = kv_bindings(kv);
            }
            if let Some(functions) = &bound.functions {
                bindings_functions = function_bindings(functions);
            }
        }
        FunctionDeploy {
            function_id: function_id.copy_key(),
            deployment_id,
            http_listeners: listeners,
            env,
            bindings_sql,
            bindings_blob,
            bindings_kv,
            bindings_functions,
        }
    }

    /// What a definition asks for, its schedules with it: `config_dir` and `files` are as for what
    /// it deploys.
    pub fn apply_definition(
        &mut self,
        function_id: &FunctionId,
        configured: &FunctionConfig,
        config_dir: &str,
        files: &Vec<String>,
    ) -> (applied: AppliedConfig)
        requires
            old(self).deployment_id_counter < u64::MAX,
            files@.len() == config::listed(configured.env).len(),
        ensures
            deploys(applied.deploy, function_id@, *configured, config_dir@, files@),
            applied.deploy.deployment_id.id == old(self).deployment_id_counter,
            ({
                let cron = config::listed(config::triggers_or_empty(*configured).cron);
                match applied.schedule {
                    Some(schedule) => schedules_valid(cron) && triggers_for(
                        schedule@,
                        function_id@,
                        cron,
                    ),
                    None => !schedules_valid(cron),
                }
            }),
            final(self).deployment_id_counter == old(self).deployment_id_counter + 1,
            final(self).functions_directory == old(self).functions_directory,
    {
        let deploy = self.apply_config(function_id, configured, config_dir, files);
        let schedule = match &configured.triggers {
            Some(triggers) => match &triggers.cron {
                Some(cron) => try_cron_triggers(function_id, cron),
                None => Some(Vec::new()),
            },
            None => Some(Vec::new()),
        };
        AppliedConfig { deploy, schedule }
    }
}

proof fn lemma_namespaces(configured: Seq<config::KvBindingConfig>)
    ensures
        forall|k: Seq<char>| #[trigger]
            namespaces(configured).dom().contains(k) <==> exists|i: int|
                0 <= i < configured.len() && (#[trigger] configured[i]).id@ == k,
        forall|i: int|
            #![trigger configured[i]]
            0 <= i < configured.len() && (forall|j: int|
                i < j < configured.len() ==> (#[trigger] configured[j]).id@ != configured[i].id@)
                ==> namespaces(configured)[configured[i].id@] == configured[i].namespace@,
    decreases configured.len(),
{
    if configured.len() > 0 {
        let rest = configured.drop_last();
        lemma_namespaces(rest);
        let whole = namespaces(configured);
        let last = configured.len() - 1;
        assert forall|k: Seq<char>| #[trigger] whole.dom().contains(k) <==> exists|i: int|
            0 <= i < configured.len() && (#[trigger] configured[i]).id@ == k by {
            if whole.dom().contains(k) {
                if k == configured[last].id@ {
                } else {
                    assert(namespaces(rest).dom().contains(k));
                    let i = choose|i: int| 0 <= i < rest.len() && (#[trigger] rest[i]).id@ == k;
                    assert(configured[i].id@ == k);
                }
            }
            if exists|i: int| 0 <= i < configured.len() && (#[trigger] configured[i]).id@ == k {
                let i = choose|i: int|
                    0 <= i < configured.len() && (#[trigger] configured[i]).id@ == k;
                if i < last {
                    assert(rest[i].id@ == k);
                    assert(namespaces(rest).dom().contains(k));
                }
            }
        }
        assert forall|i: int|
            #![trigger configured[i]]
            0 <= i < configured.len() && (forall|j: int|
                i < j < configured.len() ==> (#[trigger] configured[j]).id@
                    != configured[i].id@) implies
            whole[configured[i].id@] == configured[i].namespace@ by {
            if i < last {
                assert(configured[last].id@ != configured[i].id@);
                assert forall|j: int| i < j < rest.len() implies (#[trigger] rest[j]).id@
                    != rest[i].id@ by {
                    assert(configured[j].id@ != configured[i].id@);
                }
                assert(rest[i] == configured[i]);
            }
        }
    }
}

proof fn lemma_buckets(configured: Seq<config::BlobBindingConfig>)
    ensures
        forall|k: Seq<char>| #[trigger]
            buckets(configured).dom().contains(k) <==> exists|i: int|
                0 <= i < configured.len() && (#[trigger] configured[i]).id@ == k,
        forall|i: int|
            #![trigger configured[i]]
            0 <= i < configured.len() && (forall|j: int|
                i < j < configured.len() ==> (#[trigger] configured[j]).id@ != configured[i].id@)
                ==> buckets(configured)[configured[i].id@] == configured[i].bucket@,
    decreases configured.len(),
{
    if configured.len() > 0 {
        let rest = configured.drop_last();
        lemma_buckets(rest);
        let whole = buckets(configured);
        let last = configured.len() - 1;
        assert forall|k: Seq<char>| #[trigger] whole.dom().contains(k) <==> exists|i: int|
            0 <= i < configured.len() && (#[trigger] configured[i]).id@ == k by {
            if whole.dom().contains(k) {
                if k == configured[last].id@ {
                } else {
                    assert(buckets(rest).dom().contains(k));
                    let i = choose|i: int| 0 <= i < rest.len() && (#[trigger] rest[i]).id@ == k;
                    assert(configured[i].id@ == k);
                }
            }
            if exists|i: int| 0 <= i < configured.len() && (#[trigger] configured[i]).id@ == k {
                let i = choose|i: int|
                    0 <= i < configured.len() && (#[trigger] configured[i]).id@ == k;
                if i < last {
                    assert(rest[i].id@ == k);
                    assert(buckets(rest).dom().contains(k));
                }
            }
        }
        assert forall|i: int|
            #![trigger configured[i]]
            0 <= i < configured.len() && (forall|j: int|
                i < j < configured.len() ==> (#[trigger] configured[j]).id@
                    != configured[i].id@) implies
            whole[configured[i].id@] == configured[i].bucket@ by {
            if i < last {
                assert(configured[last].id@ != configured[i].id@);
                assert forall|j: int| i < j < rest.len() implies (#[trigger] rest[j]).id@
                    != rest[i].id@ by {
                    assert(configured[j].id@ != configured[i].id@);
                }
                assert(rest[i] == configured[i]);
            }
        }
    }
}

proof fn lemma_functions(configured: Seq<config::FunctionBindingConfig>)
    ensures
        forall|k: Seq<char>| #[trigger]
            bound_functions(configured).dom().contains(k) <==> exists|i: int|
                0 <= i < configured.len() && binding_host(#[trigger] configured[i]) == k,
        forall|i: int|
            #![trigger configured[i]]
            0 <= i < configured.len() && (forall|j: int|
                i < j < configured.len() ==> binding_host(#[trigger] configured[j]) != binding_host(
                    configured[i],
                ))
                ==> bound_functions(configured)[binding_host(configured[i])]
                    == configured[i].function_id@,
    decreases configured.len(),
{
    if configured.len() > 0 {
        let rest = configured.drop_last();
        lemma_functions(rest);
        let whole = bound_functions(configured);
        let last = configured.len() - 1;
        assert forall|k: Seq<char>| #[trigger] whole.dom().contains(k) <==> exists|i: int|
            0 <= i < configured.len() && binding_host(#[trigger] configured[i]) == k by {
            if whole.dom().contains(k) {
                if k == binding_host(configured[last]) {
                } else {
                    assert(bound_functions(rest).dom().contains(k));
                    let i = choose|i: int|
                        0 <= i < rest.len() && binding_host(#[trigger] rest[i]) == k;
                    assert(binding_host(configured[i]) == k);
                }
            }
            if exists|i: int|
                0 <= i < configured.len() && binding_host(#[trigger] configured[i]) == k {
                let i = choose|i: int|
                    0 <= i < configured.len() && binding_host(#[trigger] configured[i]) == k;
                if i < last {
                    assert(binding_host(rest[i]) == k);
                    assert(bound_functions(rest).dom().contains(k));
                }
            }
        }
        assert forall|i: int|
            #![trigger configured[i]]
            0 <= i < configured.len() && (forall|j: int|
                i < j < configured.len() ==> binding_host(#[trigger] configured[j]) != binding_host(
                    configured[i],
                )) implies
            whole[binding_host(configured[i])] == configured[i].function_id@ by {
            if i < last {
                assert(binding_host(configured[last]) != binding_host(configured[i]));
                assert forall|j: int| i < j < rest.len() implies binding_host(#[trigger] rest[j])
                    != binding_host(rest[i]) by {
                    assert(binding_host(configured[j]) != binding_host(configured[i]));
                }
                assert(rest[i] == configured[i]);
            }
        }
    }
}

proof fn lemma_places(configured: Seq<config::SqlBindingConfig>, config_dir: Seq<char>)
    ensures
        forall|k: Seq<char>| #[trigger]
            database_places(configured, config_dir).dom().contains(k) <==> exists|i: int|
                0 <= i < configured.len() && (#[trigger] configured[i]).id@ == k,
        forall|i: int|
            #![trigger configured[i]]
            0 <= i < configured.len() && (forall|j: int|
                i < j < configured.len() ==> (#[trigger] configured[j]).id@ != configured[i].id@)
                ==> database_places(configured, config_dir)[configured[i].id@] == (
                database_place(configured[i].path@, config_dir),
                configured[i].busy_timeout_ms,
            ),
    decreases configured.len(),
{
    if configured.len() > 0 {
        let rest = configured.drop_last();
        lemma_places(rest, config_dir);
        let whole = database_places(configured, config_dir);
        let last = configured.len() - 1;
        assert forall|k: Seq<char>| #[trigger] whole.dom().contains(k) <==> exists|i: int|
            0 <= i < configured.len() && (#[trigger] configured[i]).id@ == k by {
            if whole.dom().contains(k) {
                if k == configured[last].id@ {
                } else {
                    assert(database_places(rest, config_dir).dom().contains(k));
                    let i = choose|i: int| 0 <= i < rest.len() && (#[trigger] rest[i]).id@ == k;
                    assert(configured[i].id@ == k);
                }
            }
            if exists|i: int| 0 <= i < configured.len() && (#[trigger] configured[i]).id@ == k {
                let i = choose|i: int|
                    0 <= i < configured.len() && (#[trigger] configured[i]).id@ == k;
                if i < last {
                    assert(rest[i].id@ == k);
                    assert(database_places(rest, config_dir).dom().contains(k));
                }
            }
        }
        assert forall|i: int|
            #![trigger configured[i]]
            0 <= i < configured.len() && (forall|j: int|
                i < j < configured.len() ==> (#[trigger] configured[j]).id@
                    != configured[i].id@) implies
            whole[configured[i].id@] == (
                database_place(configured[i].path@, config_dir),
                configured[i].busy_timeout_ms,
            ) by {
            if i < last {
                assert(configured[last].id@ != configured[i].id@);
                assert forall|j: int| i < j < rest.len() implies (#[trigger] rest[j]).id@
                    != rest[i].id@ by {
                    assert(configured[j].id@ != configured[i].id@);
                }
                assert(rest[i] == configured[i]);
            }
        }
    }
}

/// The value that stands beside a variable in a definition, or else what is in its file.
pub open spec fn value_beside(variable: EnvVariableConfig, in_file: Seq<char>) -> Seq<char> {
    match variable.source {
        EnvValueSource::Value(value) => value@,
        EnvValueSource::File(_) => in_file,
    }
}

proof fn lemma_env(configured: Seq<EnvVariableConfig>, files: Seq<String>)
    ensures
        forall|k: Seq<char>| #[trigger]
            env_values(configured, files).dom().contains(k) <==> exists|i: int|
                0 <= i < configured.len() && (#[trigger] configured[i]).id@ == k,
        forall|i: int|
            #![trigger configured[i]]
            0 <= i < configured.len() && (forall|j: int|
                i < j < configured.len() ==> (#[trigger] configured[j]).id@ != configured[i].id@)
                ==> env_values(configured, files)[configured[i].id@] == value_beside(configured[i], files[i]@),
    decreases configured.len(),
{
    if configured.len() > 0 {
        let rest = configured.drop_last();
        lemma_env(rest, files);
        let whole = env_values(configured, files);
        let last = configured.len() - 1;
        assert forall|k: Seq<char>| #[trigger] whole.dom().contains(k) <==> exists|i: int|
            0 <= i < configured.len() && (#[trigger] configured[i]).id@ == k by {
            if whole.dom().contains(k) {
                if k == configured[last].id@ {
                } else {
                    assert(env_values(rest, files).dom().contains(k));
                    let i = choose|i: int| 0 <= i < rest.len() && (#[trigger] rest[i]).id@ == k;
                    assert(configured[i].id@ == k);
                }
            }
            if exists|i: int| 0 <= i < configured.len() && (#[trigger] configured[i]).id@ == k {
                let i = choose|i: int|
                    0 <= i < configured.len() && (#[trigger] configured[i]).id@ == k;
                if i < last {
                    assert(rest[i].id@ == k);
                    assert(env_values(rest, files).dom().contains(k));
                }
            }
        }
        assert forall|i: int|
            #![trigger configured[i]]
            0 <= i < configured.len() && (forall|j: int|
                i < j < configured.len() ==> (#[trigger] configured[j]).id@
                    != configured[i].id@) implies
            whole[configured[i].id@] == value_beside(configured[i], files[i]@) by {
            if i < last {
                assert(configured[last].id@ != configured[i].id@);
                assert forall|j: int| i < j < rest.len() implies (#[trigger] rest[j]).id@
                    != rest[i].id@ by {
                    assert(configured[j].id@ != configured[i].id@);
                }
                assert(rest[i] == configured[i]);
            }
        }
    }
}

/// A function has exactly the stores that its definition lists, each in the namespace that stands
/// beside its own name; of a name that comes again it is the last.
pub proof fn stores_are_bound_to_their_namespaces(
    configured: &Vec<config::KvBindingConfig>,
    bound: Table<String, bindings::KvBindingConfig>,
)
    requires
        call_ensures(kv_bindings, (configured,), bound),
    ensures
        forall|k: Seq<char>| #[trigger]
            bound@.dom().contains(k) <==> exists|i: int|
                0 <= i < configured@.len() && (#[trigger] configured@[i]).id@ == k,
        forall|i: int|
            #![trigger configured@[i]]
            0 <= i < configured@.len() && (forall|j: int|
                i < j < configured@.len() ==> (#[trigger] configured@[j]).id@ != configured@[i].id@)
                ==> bound@[configured@[i].id@].namespace@ == configured@[i].namespace@,
{
    lemma_namespaces(configured@);
    let whole = namespaces(configured@);
    assert forall|k: Seq<char>| #[trigger] bound@.dom().contains(k) <==> exists|i: int|
        0 <= i < configured@.len() && (#[trigger] configured@[i]).id@ == k by {
        assert(bound@.dom().contains(k) == whole.dom().contains(k));
    }
    assert forall|i: int|
        #![trigger configured@[i]]
        0 <= i < configured@.len() && (forall|j: int|
            i < j < configured@.len() ==> (#[trigger] configured@[j]).id@
                != configured@[i].id@) implies bound@[configured@[i].id@].namespace@
        == configured@[i].namespace@ by {
        assert(whole.dom().contains(configured@[i].id@));
        assert(bound@.dom().contains(configured@[i].id@));
    }
}

/// A function has exactly the buckets that its definition lists, each under the name that stands
/// beside it; of a name that comes again it is the last.
pub proof fn buckets_are_bound_to_their_names(
    configured: &Vec<config::BlobBindingConfig>,
    bound: Table<String, bindings::BlobBindingConfig>,
)
    requires
        call_ensures(blob_bindings, (configured,), bound),
    ensures
        forall|k: Seq<char>| #[trigger]
            bound@.dom().contains(k) <==> exists|i: int|
                0 <= i < configured@.len() && (#[trigger] configured@[i]).id@ == k,
        forall|i: int|
            #![trigger configured@[i]]
            0 <= i < configured@.len() && (forall|j: int|
                i < j < configured@.len() ==> (#[trigger] configured@[j]).id@ != configured@[i].id@)
                ==> bound@[configured@[i].id@].bucket@ == configured@[i].bucket@,
{
    lemma_buckets(configured@);
    let whole = buckets(configured@);
    assert forall|k: Seq<char>| #[trigger] bound@.dom().contains(k) <==> exists|i: int|
        0 <= i < configured@.len() && (#[trigger] configured@[i]).id@ == k by {
        assert(bound@.dom().contains(k) == whole.dom().contains(k));
    }
    assert forall|i: int|
        #![trigger configured@[i]]
        0 <= i < configured@.len() && (forall|j: int|
            i < j < configured@.len() ==> (#[trigger] configured@[j]).id@
                != configured@[i].id@) implies bound@[configured@[i].id@].bucket@
        == configured@[i].bucket@ by {
        assert(whole.dom().contains(configured@[i].id@));
        assert(bound@.dom().contains(configured@[i].id@));
    }
}

/// The host that stands beside the name of a function in a definition, or else that name, in lower
/// case.
pub open spec fn reached_under(configured: config::FunctionBindingConfig) -> Seq<char> {
    text::lowercase(
        match configured.host {
            Some(host) => host@,
            None => configured.function_id@,
        },
    )
}

/// A function reaches exactly the functions that its definition lists, each under the host that
/// stands beside it, or else under its own name; of a host that comes again it is the last.
pub proof fn functions_are_reached_under_their_hosts(
    configured: &Vec<config::FunctionBindingConfig>,
    bound: Table<String, bindings::FunctionBindingConfig>,
)
    requires
        call_ensures(function_bindings, (configured,), bound),
    ensures
        forall|k: Seq<char>| #[trigger]
            bound@.dom().contains(k) <==> exists|i: int|
                #![trigger configured@[i]]
                0 <= i < configured@.len() && reached_under(configured@[i]) == k,
        forall|i: int|
            #![trigger configured@[i]]
            0 <= i < configured@.len() && (forall|j: int|
                #![trigger configured@[j]]
                i < j < configured@.len() ==> reached_under(configured@[j]) != reached_under(
                    configured@[i],
                ))
                ==> bound@[reached_under(configured@[i])].function_id@
                    == configured@[i].function_id@,
{
    lemma_hosts(configured@);
    assert forall|i: int| 0 <= i < configured@.len() implies bound@.dom().contains(
        reached_under(#[trigger] configured@[i]),
    ) by {}
}

proof fn lemma_hosts(configured: Seq<config::FunctionBindingConfig>)
    ensures
        forall|k: Seq<char>| #[trigger]
            bound_functions(configured).dom().contains(k) <==> exists|i: int|
                #![trigger configured[i]]
                0 <= i < configured.len() && reached_under(configured[i]) == k,
        forall|i: int|
            #![trigger configured[i]]
            0 <= i < configured.len() && (forall|j: int|
                #![trigger configured[j]]
                i < j < configured.len() ==> reached_under(configured[j]) != reached_under(
                    configured[i],
                ))
                ==> bound_functions(configured)[reached_under(configured[i])]
                    == configured[i].function_id@,
{
    lemma_functions(configured);
    let whole = bound_functions(configured);
    assert forall|k: Seq<char>| #[trigger] whole.dom().contains(k) <==> exists|i: int|
        #![trigger configured[i]]
        0 <= i < configured.len() && reached_under(configured[i]) == k by {
        if whole.dom().contains(k) {
            let i = choose|i: int|
                0 <= i < configured.len() && binding_host(#[trigger] configured[i]) == k;
            assert(reached_under(configured[i]) == k);
        }
        if exists|i: int|
            #![trigger configured[i]]
            0 <= i < configured.len() && reached_under(configured[i]) == k {
            let i = choose|i: int|
                #![trigger configured[i]]
                0 <= i < configured.len() && reached_under(configured[i]) == k;
            assert(binding_host(configured[i]) == k);
        }
    }
    assert forall|i: int|
        #![trigger configured[i]]
        0 <= i < configured.len() && (forall|j: int|
            #![trigger configured[j]]
            i < j < configured.len() ==> reached_under(configured[j]) != reached_under(
                    configured[i],
                )) implies
        whole[reached_under(configured[i])] == configured[i].function_id@ by {
        assert forall|j: int| i < j < configured.len() implies binding_host(
            #[trigger] configured[j],
        ) != binding_host(configured[i]) by {
            assert(reached_under(configured[j]) != reached_under(configured[i]));
        }
    }
}

/// Whether a path leads to what another, `part`, names from a directory on: to `part` itself where
/// it is absolute, else to what begins with the directory and ends in `part`, with a slash between
/// them.
pub open spec fn is_below(path: Seq<char>, directory: Seq<char>, part: Seq<char>) -> bool {
    let start = path.len() - part.len();
    &&& 0 <= start
    &&& path.subrange(start, path.len() as int) == part
    &&& if part.len() > 0 && part[0] == '/' {
        start == 0
    } else {
        &&& directory.len() <= start <= directory.len() + 1
        &&& path.subrange(0, directory.len() as int) == directory
        &&& start > 0 ==> path[start - 1] == '/'
        &&& directory.len() > 0 ==> start > 0
    }
}

/// A joined path leads to what its second part names from the first on.
pub proof fn paths_lead_below_their_directories(base: &str, part: &str, path: String)
    requires
        call_ensures(join_path, (base, part), path),
    ensures
        is_below(path@, base@, part@),
{
    lemma_joined(base@, part@);
}

/// A path that is joined leads below the directory.
pub proof fn lemma_joined(base: Seq<char>, part: Seq<char>)
    ensures
        is_below(joined(base, part), base, part),
{
    let path = joined(base, part);
    let start = path.len() - part.len();
    reveal_strlit("/");
    assert(path.subrange(start, path.len() as int) =~= part);
    if !(part.len() > 0 && part[0] == '/') {
        assert(path.subrange(0, base.len() as int) =~= base);
    }
}

/// A function has exactly the databases that its definition lists. Each is in memory or at the path
/// that stands beside its own name, taken from the directory of the definition on, and waits as long
/// as is configured for it; of a name that comes again it is the last.
pub proof fn databases_lie_where_they_are_configured(
    configured: &Vec<config::SqlBindingConfig>,
    config_dir: &str,
    bound: Table<String, bindings::SqlBindingConfig>,
)
    requires
        call_ensures(sql_bindings, (configured, config_dir), bound),
    ensures
        forall|k: Seq<char>| #[trigger]
            bound@.dom().contains(k) <==> exists|i: int|
                0 <= i < configured@.len() && (#[trigger] configured@[i]).id@ == k,
        forall|i: int|
            #![trigger configured@[i]]
            0 <= i < configured@.len() && (forall|j: int|
                i < j < configured@.len() ==> (#[trigger] configured@[j]).id@ != configured@[i].id@)
                ==> ({
                    let binding = bound@[configured@[i].id@];
                    let given = configured@[i].path@;
                    &&& binding.busy_timeout_ms == configured@[i].busy_timeout_ms
                    &&& if given == ":memory:"@ {
                        binding.location is InMemory
                    } else {
                        binding.location matches SqlBindingConfigLocation::Path(path) && is_below(
                            path@,
                            config_dir@,
                            given,
                        )
                    }
                }),
{
    lemma_places(configured@, config_dir@);
    assert forall|i: int| 0 <= i < configured@.len() implies is_below(
        joined(config_dir@, (#[trigger] configured@[i]).path@),
        config_dir@,
        configured@[i].path@,
    ) by {
        lemma_joined(config_dir@, configured@[i].path@);
    }
    assert forall|i: int| 0 <= i < configured@.len() implies bound@.dom().contains(
        (#[trigger] configured@[i]).id@,
    ) by {
    }
}

/// The environment of a function holds exactly the variables that its definition lists, each with the
/// value that stands beside its own name, or with what is in the file that does; of a name that comes
/// again it is the last.
pub proof fn variables_have_their_own_values(
    variables: &Vec<EnvVariableConfig>,
    files: &Vec<String>,
    env: Table<String, String>,
)
    requires
        call_ensures(env_table, (variables, files), env),
    ensures
        forall|k: Seq<char>| #[trigger]
            env@.dom().contains(k) <==> exists|i: int|
                0 <= i < variables@.len() && (#[trigger] variables@[i]).id@ == k,
        forall|i: int|
            #![trigger variables@[i]]
            0 <= i < variables@.len() && (forall|j: int|
                i < j < variables@.len() ==> (#[trigger] variables@[j]).id@ != variables@[i].id@)
                ==> env@[variables@[i].id@]@ == value_beside(variables@[i], files@[i]@),
{
    lemma_env(variables@, files@);
    assert forall|i: int| 0 <= i < variables@.len() implies env@.dom().contains(
        (#[trigger] variables@[i]).id@,
    ) by {
    }
}

/// A function listens for exactly the hosts that its definition lists: one listener for each endpoint,
/// in their order, and each for the host of its own endpoint. Without a list it listens for none.
pub proof fn listeners_are_for_their_own_hosts(
    triggers: &Option<config::FunctionTriggersConfig>,
    listeners: Vec<FunctionHttpListener>,
)
    requires
        call_ensures(http_listeners, (triggers,), listeners),
    ensures
        *triggers is None || triggers->0.http is None ==> listeners@.len() == 0,
        *triggers matches Some(triggers) ==> (triggers.http matches Some(endpoints)
            ==> listeners@.len() == endpoints@.len() && forall|i: int|
            #![trigger listeners@[i]]
            0 <= i < listeners@.len() ==> (match (listeners@[i].host, endpoints@[i].host) {
                (Some(host), Some(given)) => host@ == given@,
                (None, None) => true,
                _ => false,
            })),
{
    lemma_listeners(*triggers, listeners@);
}

proof fn lemma_listeners(
    triggers: Option<config::FunctionTriggersConfig>,
    listeners: Seq<FunctionHttpListener>,
)
    requires
        listeners.map_values(|listener: FunctionHttpListener| text_view(listener.host))
            == listener_hosts(triggers),
    ensures
        triggers is None || triggers->0.http is None ==> listeners.len() == 0,
        triggers matches Some(triggers) ==> (triggers.http matches Some(endpoints)
            ==> listeners.len() == endpoints@.len() && forall|i: int|
            #![trigger listeners[i]]
            0 <= i < listeners.len() ==> (match (listeners[i].host, endpoints@[i].host) {
                (Some(host), Some(given)) => host@ == given@,
                (None, None) => true,
                _ => false,
            })),
{
    let hosts = listeners.map_values(|listener: FunctionHttpListener| text_view(listener.host));
    assert(hosts.len() == listeners.len());
    if triggers is Some && triggers->0.http is Some {
        let endpoints = triggers->0.http->0;
        assert forall|i: int|
            #![trigger listeners[i]]
            0 <= i < listeners.len() implies (match (listeners[i].host, endpoints@[i].host) {
                (Some(host), Some(given)) => host@ == given@,
                (None, None) => true,
                _ => false,
            }) by {
            assert(hosts[i] == text_view(listeners[i].host));
            assert(listener_hosts(triggers)[i] == text_view(endpoints@[i].host));
        }
    }
}

/// A function is called by exactly the schedules that its definition lists, in their order: each has
/// the expression that stands beside its own name, and is named after the function and itself.
pub proof fn schedules_are_those_configured(
    function_id: &FunctionId,
    configured: &Vec<config::FunctionCronTriggerConfig>,
    triggers: Option<Vec<CronTrigger>>,
)
    requires
        call_ensures(try_cron_triggers, (function_id, configured), triggers),
    ensures
        triggers is Some <==> forall|i: int|
            0 <= i < configured@.len() ==> cron::is_schedule((#[trigger] configured@[i]).schedule@),
        triggers matches Some(triggers) ==> triggers@.len() == configured@.len() && forall|i: int|
            #![trigger triggers@[i]]
            0 <= i < triggers@.len() ==> triggers@[i].schedule.expression@
                == configured@[i].schedule@ && triggers@[i].id@ == function_id@ + "::"@
                + configured@[i].id@,
{
}

/// The functions that are loaded when the directory is walked are those that the files in it define,
/// in their order and each as often: the readable files whose names end in the suffix of definitions
/// are the files of these functions.
pub proof fn loaded_functions_are_those_with_files(entries: &Vec<ScanEntry>, load: Vec<FunctionId>)
    requires
        call_ensures(scan_definitions, (entries,), load),
    ensures
        load@.map_values(|id: FunctionId| id@ + ".fx.yaml"@) == entries@.filter(
            |entry: ScanEntry|
                entry.readable && entry.is_file && text::has_suffix(entry.path@, ".fx.yaml"@),
        ).map_values(|entry: ScanEntry| entry.path@),
{
    lemma_defined(entries@);
    let names = load@.map_values(|id: FunctionId| id@);
    assert(load@.map_values(|id: FunctionId| id@ + ".fx.yaml"@) =~= names.map_values(
        |name: Seq<char>| name + ".fx.yaml"@,
    ));
}

proof fn lemma_defined(entries: Seq<ScanEntry>)
    ensures
        defined(entries).map_values(|name: Seq<char>| name + ".fx.yaml"@) == entries.filter(
            |entry: ScanEntry|
                entry.readable && entry.is_file && text::has_suffix(entry.path@, ".fx.yaml"@),
        ).map_values(|entry: ScanEntry| entry.path@),
    decreases entries.len(),
{
    reveal(Seq::filter);
    let defines = |entry: ScanEntry|
        entry.readable && entry.is_file && text::has_suffix(entry.path@, ".fx.yaml"@);
    let file = |name: Seq<char>| name + ".fx.yaml"@;
    let path = |entry: ScanEntry| entry.path@;
    if entries.len() == 0 {
        assert(defined(entries).map_values(file) =~= entries.filter(defines).map_values(path));
    } else {
        let rest = entries.drop_last();
        lemma_defined(rest);
        let last = entries.last();
        assert(DEFINITION_FILE_SUFFIX@ == ".fx.yaml"@);
        if defines(last) {
            let stem = last.path@.subrange(0, last.path@.len() - ".fx.yaml"@.len());
            assert(stem + ".fx.yaml"@ =~= last.path@);
            assert(defined(entries) == defined(rest).push(stem));
            assert(defined(entries).map_values(file) =~= defined(rest).map_values(file).push(
                last.path@,
            ));
            assert(entries.filter(defines).map_values(path) =~= rest.filter(defines).map_values(
                path,
            ).push(last.path@));
        }
    }
}

/// Whether a deployment is what a definition lists: the function is the one that is defined, and it
/// has exactly the listeners, variables, databases, buckets, stores and functions of the definition,
/// each with what stands beside its own name there.
pub open spec fn follows(
    deploy: FunctionDeploy,
    function_id: Seq<char>,
    configured: FunctionConfig,
    config_dir: Seq<char>,
    files: Seq<String>,
) -> bool {
                &&& deploy.function_id@ == function_id
                &&& configured.triggers is None || configured.triggers->0.http is None
                    ==> deploy.http_listeners@.len() == 0
                &&& configured.triggers matches Some(triggers) ==> (triggers.http matches Some(
                    endpoints,
                ) ==> deploy.http_listeners@.len() == endpoints@.len() && forall|i: int|
                    #![trigger deploy.http_listeners@[i]]
                    0 <= i < endpoints@.len() ==> (match (deploy.http_listeners@[i].host, endpoints@[i].host) {
                (Some(host), Some(given)) => host@ == given@,
                (None, None) => true,
                _ => false,
            }))
                &&& configured.env is None ==> deploy.env@.dom() == Set::<Seq<char>>::empty()
                &&& configured.bindings is None ==> deploy.bindings_kv@.dom() == Set::<Seq<char>>::empty()
                    && deploy.bindings_blob@.dom() == Set::<Seq<char>>::empty()
                    && deploy.bindings_sql@.dom() == Set::<Seq<char>>::empty()
                    && deploy.bindings_functions@.dom() == Set::<Seq<char>>::empty()
                &&& configured.env matches Some(variables) ==> (forall|k: Seq<char>| #[trigger]
                    deploy.env@.dom().contains(k) <==> exists|i: int|
                        0 <= i < variables@.len() && (#[trigger] variables@[i]).id@ == k) && (forall|
                    i: int,
                |
                    #![trigger variables@[i]]
                    0 <= i < variables@.len() && (forall|j: int|
                        i < j < variables@.len() ==> (#[trigger] variables@[j]).id@
                            != variables@[i].id@) ==> deploy.env@[variables@[i].id@]@ == value_beside(variables@[i], files[i]@))
                &&& configured.bindings matches Some(bound) ==> bound.kv is None
                    ==> deploy.bindings_kv@.dom() == Set::<Seq<char>>::empty()
                &&& configured.bindings matches Some(bound) ==> bound.blob is None
                    ==> deploy.bindings_blob@.dom() == Set::<Seq<char>>::empty()
                &&& configured.bindings matches Some(bound) ==> bound.sql is None
                    ==> deploy.bindings_sql@.dom() == Set::<Seq<char>>::empty()
                &&& configured.bindings matches Some(bound) ==> bound.functions is None
                    ==> deploy.bindings_functions@.dom() == Set::<Seq<char>>::empty()
                &&& configured.bindings matches Some(bound) ==> (bound.kv matches Some(list) ==> (
                forall|k: Seq<char>| #[trigger]
                    deploy.bindings_kv@.dom().contains(k) <==> exists|i: int|
                        #![trigger list@[i]]
                        0 <= i < list@.len() && list@[i].id@ == k) && (forall|i: int|
                    #![trigger list@[i]]
                    0 <= i < list@.len() && (forall|j: int|
                        #![trigger list@[j]]
                        i < j < list@.len() ==> list@[j].id@ != list@[i].id@)
                        ==> deploy.bindings_kv@[list@[i].id@].namespace@ == list@[i].namespace@))
                &&& configured.bindings matches Some(bound) ==> (bound.blob matches Some(list) ==> (
                forall|k: Seq<char>| #[trigger]
                    deploy.bindings_blob@.dom().contains(k) <==> exists|i: int|
                        #![trigger list@[i]]
                        0 <= i < list@.len() && list@[i].id@ == k) && (forall|i: int|
                    #![trigger list@[i]]
                    0 <= i < list@.len() && (forall|j: int|
                        #![trigger list@[j]]
                        i < j < list@.len() ==> list@[j].id@ != list@[i].id@)
                        ==> deploy.bindings_blob@[list@[i].id@].bucket@ == list@[i].bucket@))
                &&& configured.bindings matches Some(bound) ==> (bound.sql matches Some(list) ==> (
                forall|k: Seq<char>| #[trigger]
                    deploy.bindings_sql@.dom().contains(k) <==> exists|i: int|
                        #![trigger list@[i]]
                        0 <= i < list@.len() && list@[i].id@ == k) && (forall|i: int|
                    #![trigger list@[i]]
                    0 <= i < list@.len() && (forall|j: int|
                        #![trigger list@[j]]
                        i < j < list@.len() ==> list@[j].id@ != list@[i].id@)
                        ==> ({
                        let binding = deploy.bindings_sql@[list@[i].id@];
                        &&& binding.busy_timeout_ms == list@[i].busy_timeout_ms
                        &&& if list@[i].path@ == ":memory:"@ {
                            binding.location is InMemory
                        } else {
                            binding.location matches SqlBindingConfigLocation::Path(path)
                                && is_below(path@, config_dir, list@[i].path@)
                        }
                    })))
                &&& configured.bindings matches Some(bound) ==> (bound.functions matches Some(list) ==> (
                forall|k: Seq<char>| #[trigger]
                    deploy.bindings_functions@.dom().contains(k) <==> exists|i: int|
                        #![trigger list@[i]]
                        0 <= i < list@.len() && reached_under(list@[i]) == k) && (forall|i: int|
                    #![trigger list@[i]]
                    0 <= i < list@.len() && (forall|j: int|
                        #![trigger list@[j]]
                        i < j < list@.len() ==> reached_under(list@[j]) != reached_under(
                            list@[i],
                        ))
                        ==> deploy.bindings_functions@[reached_under(list@[i])].function_id@ == list@[i].function_id@))
}

/// A deployment follows its definition, and takes the next number.
pub proof fn deployments_follow_their_definitions(
    function_id: &FunctionId,
    configured: &FunctionConfig,
    config_dir: &str,
    files: &Vec<String>,
    deploy: FunctionDeploy,
)
    ensures
        forall|monitor: &mut DefinitionsMonitor| #[trigger]
            call_ensures(
                DefinitionsMonitor::apply_config,
                (monitor, function_id, configured, config_dir, files),
                deploy,
            ) ==> follows(deploy, function_id@, *configured, config_dir@, files@)
                && deploy.deployment_id.id == monitor.deployment_id_counter
                && final(monitor).deployment_id_counter == monitor.deployment_id_counter + 1
                && final(monitor).functions_directory == monitor.functions_directory,
{
    if deploys(deploy, function_id@, *configured, config_dir@, files@) {
        lemma_deploys(deploy, function_id@, *configured, config_dir@, files@);
    }
}

/// What a definition asks for follows it, and its schedules are those that the definition lists.
pub proof fn definitions_are_followed(
    function_id: &FunctionId,
    configured: &FunctionConfig,
    config_dir: &str,
    files: &Vec<String>,
    applied: AppliedConfig,
)
    ensures
        forall|monitor: &mut DefinitionsMonitor| #[trigger]
            call_ensures(
                DefinitionsMonitor::apply_definition,
                (monitor, function_id, configured, config_dir, files),
                applied,
            ) ==> {
                &&& follows(applied.deploy, function_id@, *configured, config_dir@, files@)
                &&& applied.deploy.deployment_id.id == monitor.deployment_id_counter
                &&& final(monitor).deployment_id_counter == monitor.deployment_id_counter + 1
                &&& configured.triggers is None || configured.triggers->0.cron is None
                    ==> (applied.schedule matches Some(schedule) && schedule@.len() == 0)
                &&& configured.triggers matches Some(triggers) ==> (triggers.cron matches Some(list)
                    ==> (applied.schedule is Some <==> forall|i: int|
                    0 <= i < list@.len() ==> cron::is_schedule((#[trigger] list@[i]).schedule@)) && (
                applied.schedule matches Some(schedule) ==> schedule@.len() == list@.len() && forall|
                    i: int,
                |
                    #![trigger schedule@[i]]
                    0 <= i < schedule@.len() ==> schedule@[i].schedule.expression@
                        == list@[i].schedule@ && schedule@[i].id@ == function_id@ + "::"@
                        + list@[i].id@))
            },
{
    if deploys(applied.deploy, function_id@, *configured, config_dir@, files@) {
        lemma_deploys(applied.deploy, function_id@, *configured, config_dir@, files@);
    }
}

proof fn lemma_deploys(
    deploy: FunctionDeploy,
    function_id: Seq<char>,
    configured: FunctionConfig,
    config_dir: Seq<char>,
    files: Seq<String>,
)
    requires
        deploys(deploy, function_id, configured, config_dir, files),
    ensures
        follows(deploy, function_id, configured, config_dir, files),
{
    lemma_listeners(configured.triggers, deploy.http_listeners@);
    lemma_env(config::listed(configured.env), files);
    if configured.env is Some {
        let list = configured.env->0;
        assert forall|i: int| 0 <= i < list@.len() implies deploy.env@.dom().contains(
            (#[trigger] list@[i]).id@,
        ) by {}
    }
    if configured.bindings is Some {
        let bound = configured.bindings->0;
        if bound.kv is Some {
            let list = bound.kv->0;
            lemma_namespaces(list@);
            assert forall|i: int| 0 <= i < list@.len() implies deploy.bindings_kv@.dom().contains(
                (#[trigger] list@[i]).id@,
            ) by {}
        }
        if bound.blob is Some {
            let list = bound.blob->0;
            lemma_buckets(list@);
            assert forall|i: int| 0 <= i < list@.len() implies deploy.bindings_blob@.dom().contains(
                (#[trigger] list@[i]).id@,
            ) by {}
        }
        if bound.sql is Some {
            let list = bound.sql->0;
            lemma_places(list@, config_dir);
            assert forall|i: int| 0 <= i < list@.len() implies deploy.bindings_sql@.dom().contains(
                (#[trigger] list@[i]).id@,
            ) && is_below(joined(config_dir, list@[i].path@), config_dir, list@[i].path@) by {
                lemma_joined(config_dir, list@[i].path@);
            }
        }
        if bound.functions is Some {
            let list = bound.functions->0;
            lemma_hosts(list@);
            assert forall|i: int| 0 <= i < list@.len() implies deploy.bindings_functions@.dom().contains(
                reached_under(#[trigger] list@[i]),
            ) by {}
        }
    }
}

/// A change of a file concerns the function that the file is named after, and no other: the function
/// is removed where the file is gone, and loaded where it is there. Any other file is of no concern.
pub proof fn changes_concern_the_named_function(
    path: &str,
    exists: bool,
    is_file: bool,
    action: ChangeAction,
)
    requires
        call_ensures(path_changed, (path, exists, is_file), action),
    ensures
        forall|id: Seq<char>|
            path@ == #[trigger] (id + ".fx.yaml"@) ==> match action {
                ChangeAction::Remove(function) => !exists && function@ == id,
                ChangeAction::Load(function) => exists && is_file && function@ == id,
                ChangeAction::Ignore => exists && !is_file,
            },
        (forall|id: Seq<char>| path@ != #[trigger] (id + ".fx.yaml"@)) ==> action is Ignore,
{
    assert(DEFINITION_FILE_SUFFIX@ == ".fx.yaml"@);
    assert forall|id: Seq<char>| path@ == #[trigger] (id + ".fx.yaml"@) implies match action {
        ChangeAction::Remove(function) => !exists && function@ == id,
        ChangeAction::Load(function) => exists && is_file && function@ == id,
        ChangeAction::Ignore => exists && !is_file,
    } by {
        assert(definition_file(id) == path@);
        match action {
            ChangeAction::Remove(function) => {
                definition_files_name_functions(function@, id);
            },
            ChangeAction::Load(function) => {
                definition_files_name_functions(function@, id);
            },
            ChangeAction::Ignore => {},
        }
    }
    if forall|id: Seq<char>| path@ != #[trigger] (id + ".fx.yaml"@) {
        match action {
            ChangeAction::Remove(function) => {
                assert(path@ == function@ + ".fx.yaml"@);
            },
            ChangeAction::Load(function) => {
                assert(path@ == function@ + ".fx.yaml"@);
            },
            ChangeAction::Ignore => {},
        }
    }
}

/// The code of a function that is named like a file lies below the directory of functions, in the
/// file of its own name with `.wasm` behind it.
pub proof fn code_lies_beside_its_definition(
    monitor: &DefinitionsMonitor,
    function_id: &FunctionId,
    path: String,
)
    requires
        call_ensures(DefinitionsMonitor::code_path, (monitor, function_id), path),
        function_id@.len() > 0,
        function_id@.last() != '/',
        function_id@.last() != '.',
    ensures
        is_below(path@, monitor.functions_directory@, function_id@ + ".wasm"@),
{
    lemma_code_path(monitor.functions_directory@, function_id@);
    lemma_joined(monitor.functions_directory@, function_id@ + ".wasm"@);
}

proof fn lemma_code_path(base: Seq<char>, id: Seq<char>)
    requires
        id.len() > 0,
        id.last() != '/',
        id.last() != '.',
    ensures
        with_wasm(joined(base, id)) == joined(base, id + ".wasm"@),
{
    let whole = joined(base, id);
    let len = whole.len() as int;
    let named = id + ".wasm"@;
    assert(whole[len - 1] == id[id.len() - 1]);
    assert(trimmed(whole) == whole);
    assert(names_file(whole));
    assert(named[0] == id[0]);
    if base.len() > 0 && id[0] != '/' && base.last() != '/' {
        assert(whole == base + "/"@ + id);
        assert(joined(base, named) == base + "/"@ + named);
        assert(base + "/"@ + named =~= whole + ".wasm"@);
    } else if base.len() > 0 && id[0] != '/' {
        assert(base + named =~= whole + ".wasm"@);
    }
}

/// A function lies at its own name in the directory of the functions, which is taken from the directory
/// of the configuration on; the deployments are numbered one after the other.
pub proof fn functions_lie_in_their_directory(
    config_dir: &str,
    functions_dir: &str,
    monitor: DefinitionsMonitor,
    function_id: &FunctionId,
    path: String,
    id: FunctionDeploymentId,
)
    requires
        call_ensures(DefinitionsMonitor::new, (config_dir, functions_dir), monitor),
        call_ensures(DefinitionsMonitor::function_id_to_path, (&monitor, function_id), path),
    ensures
        monitor.deployment_id_counter == 0,
        is_below(monitor.functions_directory@, config_dir@, functions_dir@),
        is_below(path@, monitor.functions_directory@, function_id.id@),
        forall|m: &mut DefinitionsMonitor| #[trigger]
            call_ensures(DefinitionsMonitor::next_deployment_id, (m,), id)
                && m.deployment_id_counter < u64::MAX ==> id.id == m.deployment_id_counter && final(
                m
            ).deployment_id_counter == m.deployment_id_counter + 1,
{
    lemma_joined(config_dir@, functions_dir@);
    lemma_joined(monitor.functions_directory@, function_id@);
}

/// A path is that of a definition exactly where it ends in the suffix of definitions, and it then names
/// the function that stands before the suffix.
pub proof fn definitions_are_told_by_their_suffix(
    path: &str,
    found: Result<FunctionId, FunctionIdDetectionError>,
    entry: &ScanEntry,
    load: Option<FunctionId>,
)
    requires
        call_ensures(path_to_function_id, (path,), found),
        call_ensures(scan_entry, (entry,), load),
    ensures
        found is Ok <==> text::has_suffix(path@, ".fx.yaml"@),
        found matches Ok(id) ==> id.id@ + ".fx.yaml"@ == path@,
        load is Some <==> entry.readable && entry.is_file && text::has_suffix(
            entry.path@,
            ".fx.yaml"@,
        ),
        load matches Some(id) ==> id.id@ + ".fx.yaml"@ == entry.path@,
{
    assert(DEFINITION_FILE_SUFFIX@ == ".fx.yaml"@);
    let suffix = ".fx.yaml"@;
    if text::has_suffix(path@, suffix) {
        let stem = path@.subrange(0, path@.len() - suffix.len());
        assert(stem + suffix =~= path@);
        assert(path@ == definition_file(stem));
    }
    if text::has_suffix(entry.path@, suffix) {
        let stem = entry.path@.subrange(0, entry.path@.len() - suffix.len());
        assert(stem + suffix =~= entry.path@);
        assert(entry.path@ == definition_file(stem));
    }
    if found is Ok {
        let id = found->Ok_0.id@;
        assert(path@ == id + suffix);
        assert(path@.subrange(path@.len() - suffix.len(), path@.len() as int) =~= suffix);
    }
    if load is Some {
        let id = load->0.id@;
        assert(entry.path@ == id + suffix);
        assert(entry.path@.subrange(
            entry.path@.len() - suffix.len(),
            entry.path@.len() as int,
        ) =~= suffix);
    }
}

/// Only changes are looked at, all of them and in their order; reading is none. The code of a function
/// is taken from where it is configured, and lies beside its definition else.
pub proof fn changes_are_looked_at_in_order(
    access: bool,
    paths: Vec<String>,
    changed: Vec<String>,
    code: Option<FunctionCodeConfig>,
    source: ModuleSource,
)
    requires
        call_ensures(changed_paths, (access, paths), changed),
        call_ensures(module_source, (code,), source),
    ensures
        access ==> changed@.len() == 0,
        !access ==> changed@ == paths@,
        code is None <==> source is BesideDefinition,
        code matches Some(FunctionCodeConfig::Path(path)) ==> source == ModuleSource::File(path),
        code matches Some(FunctionCodeConfig::Inline(bytes)) ==> source == ModuleSource::Inline(
            bytes,
        ),
{
}

/// A database is in memory exactly where its path says so, under the name that was drawn for it; else it
/// is the file at its path, taken from the directory of the definition on.
pub proof fn databases_are_bound_to_their_paths(
    configured: &config::SqlBindingConfig,
    config_dir: &str,
    connection_id: String,
    memory_id: String,
    binding: bindings::SqlBindingConfig,
)
    requires
        call_ensures(sql_binding, (configured, config_dir, connection_id, memory_id), binding),
    ensures
        binding.connection_id@ == connection_id@,
        binding.busy_timeout_ms == configured.busy_timeout_ms,
        binding.location is InMemory <==> configured.path@ == ":memory:"@,
        binding.location matches SqlBindingConfigLocation::InMemory(id) ==> id@ == memory_id@,
        binding.location matches SqlBindingConfigLocation::Path(path) ==> is_below(
            path@,
            config_dir@,
            configured.path@,
        ),
{
    lemma_joined(config_dir@, configured.path@);
}

/// Whether a name ends as the name of a file does: not in a slash, and not in the dots of a directory.
pub open spec fn ends_in_file(name: Seq<char>) -> bool {
    let len = name.len() as int;
    &&& len > 0
    &&& name[len - 1] != '/'
    &&& !(name[len - 1] == '.' && (len == 1 || name[len - 2] == '/'))
    &&& !(len > 1 && name[len - 1] == '.' && name[len - 2] == '.' && (len == 2 || name[len - 3]
        == '/'))
}

proof fn lemma_file_name(base: Seq<char>, id: Seq<char>, more: Seq<char>)
    requires
        ends_in_file(id),
        more == id || more == id + "/"@ || more == id + "/."@,
    ensures
        with_wasm(joined(base, more)) == joined(base, id + ".wasm"@),
{
    reveal_strlit("/");
    reveal_strlit("/.");
    reveal_with_fuel(trimmed, 4);
    let whole = joined(base, id);
    let len = whole.len() as int;
    let named = id + ".wasm"@;
    let start = len - id.len();
    assert(more[0] == id[0]);
    assert(named[0] == id[0]);
    assert(forall|i: int| 0 <= i < id.len() ==> whole[start + i] == #[trigger] id[i]);
    assert(whole[len - 1] == id[id.len() - 1]);
    if id.len() > 1 {
        assert(whole[len - 2] == id[id.len() - 2]);
    }
    if id.len() > 2 {
        assert(whole[len - 3] == id[id.len() - 3]);
    }
    assert(trimmed(whole) == whole);
    assert(names_file(whole));
    assert(joined(base, named) =~= whole + ".wasm"@);
    let longer = joined(base, more);
    if more == id + "/"@ {
        assert(longer =~= whole.push('/'));
        assert(longer.drop_last() =~= whole);
    } else if more == id + "/."@ {
        assert(longer =~= whole.push('/').push('.'));
        assert(longer.drop_last() =~= whole.push('/'));
        assert(whole.push('/').drop_last() =~= whole);
    }
}

/// The code of a function lies below the directory of functions in the file of its own name with
/// `.wasm` behind it, where the name ends as that of a file does; a slash behind the name, or a slash and
/// a dot, change nothing. A name that ends in the dots of the directory above is the path itself.
pub proof fn names_of_directories_get_no_extension(
    monitor: &DefinitionsMonitor,
    function_id: &FunctionId,
    path: String,
    name: Seq<char>,
)
    requires
        call_ensures(DefinitionsMonitor::code_path, (monitor, function_id), path),
    ensures
        ends_in_file(name) && (function_id.id@ == name || function_id.id@ == name + "/"@
            || function_id.id@ == name + "/."@) ==> is_below(
            path@,
            monitor.functions_directory@,
            name + ".wasm"@,
        ),
        function_id.id@ == name + "/.."@ ==> is_below(
            path@,
            monitor.functions_directory@,
            function_id.id@,
        ),
{
    let base = monitor.functions_directory@;
    let id = function_id.id@;
    if ends_in_file(name) && (id == name || id == name + "/"@ || id == name + "/."@) {
        lemma_file_name(base, name, id);
        lemma_joined(base, name + ".wasm"@);
    }
    if id == name + "/.."@ {
        reveal_strlit("/");
        reveal_strlit("/..");
        let whole = joined(base, id);
        let len = whole.len() as int;
        assert(whole[len - 1] == id[id.len() - 1]);
        assert(whole[len - 2] == id[id.len() - 2]);
        assert(whole[len - 3] == id[id.len() - 3]);
        assert(trimmed(whole) == whole);
        lemma_joined(base, id);
    }
}

} // verus!
