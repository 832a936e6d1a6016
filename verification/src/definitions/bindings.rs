//! The bindings of a deployed function: what stands behind the names that it uses.
use vstd::prelude::*;

use crate::function::id::FunctionId;

verus! {

/// A database behind a binding.
#[derive(Debug)]
pub struct SqlBindingConfig {
    pub connection_id: String,
    pub location: SqlBindingConfigLocation,
    pub busy_timeout_ms: Option<u64>,
}

/// Where a database lives.
#[derive(Debug)]
pub enum SqlBindingConfigLocation {
    InMemory(String),
    Path(String),
}

/// A bucket of blobs behind a binding.
#[derive(Debug)]
pub struct BlobBindingConfig {
    pub bucket: String,
}

/// A key-value namespace behind a binding.
#[derive(Debug)]
pub struct KvBindingConfig {
    pub namespace: String,
}

/// A function behind a host name.
#[derive(Debug)]
pub struct FunctionBindingConfig {
    pub function_id: FunctionId,
}

/// What a [`SqlBindingConfigLocation`] is, whatever strings hold it.
pub enum SqlLocationView {
    InMemory(Seq<char>),
    Path(Seq<char>),
}

impl View for SqlBindingConfigLocation {
    type V = SqlLocationView;

    open spec fn view(&self) -> SqlLocationView {
        match self {
            SqlBindingConfigLocation::InMemory(name) => SqlLocationView::InMemory(name@),
            SqlBindingConfigLocation::Path(path) => SqlLocationView::Path(path@),
        }
    }
}

impl Clone for SqlBindingConfigLocation {
    fn clone(&self) -> (copy: Self)
        ensures
            copy@ == self@,
    {
        match self {
            SqlBindingConfigLocation::InMemory(name) => SqlBindingConfigLocation::InMemory(
                name.clone(),
            ),
            SqlBindingConfigLocation::Path(path) => SqlBindingConfigLocation::Path(path.clone()),
        }
    }
}

/// What a [`SqlBindingConfig`] is, whatever strings hold it.
pub struct SqlBindingView {
    pub connection_id: Seq<char>,
    pub location: SqlLocationView,
    pub busy_timeout_ms: Option<u64>,
}

impl View for SqlBindingConfig {
    type V = SqlBindingView;

    open spec fn view(&self) -> SqlBindingView {
        SqlBindingView {
            connection_id: self.connection_id@,
            location: self.location@,
            busy_timeout_ms: self.busy_timeout_ms,
        }
    }
}

impl Clone for SqlBindingConfig {
    fn clone(&self) -> (copy: Self)
        ensures
            copy@ == self@,
    {
        SqlBindingConfig {
            connection_id: self.connection_id.clone(),
            location: self.location.clone(),
            busy_timeout_ms: self.busy_timeout_ms,
        }
    }
}

/// A copy of a binding leads to the same database: the same connection, the same place, in memory or in
/// a file, and the same time to wait.
pub proof fn copies_lead_to_the_same_database(config: SqlBindingConfig, copy: SqlBindingConfig)
    requires
        call_ensures(SqlBindingConfig::clone, (&config,), copy),
    ensures
        copy.connection_id@ == config.connection_id@,
        copy.busy_timeout_ms == config.busy_timeout_ms,
        config.location is InMemory <==> copy.location is InMemory,
        config.location is InMemory ==> copy.location->InMemory_0@ == config.location->InMemory_0@,
        config.location is Path ==> copy.location->Path_0@ == config.location->Path_0@,
{
}

} // verus!
