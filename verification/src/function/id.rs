//! The names of functions and of their deployments.
use vstd::prelude::*;

use crate::table::TableKey;

verus! {

/// The name of a function.
#[derive(Debug, Hash)]
pub struct FunctionId {
    pub id: String,
}

impl View for FunctionId {
    type V = Seq<char>;

    open spec fn view(&self) -> Seq<char> {
        self.id@
    }
}

impl Clone for FunctionId {
    fn clone(&self) -> (copy: Self)
        ensures
            copy@ == self@,
    {
        FunctionId { id: self.id.clone() }
    }
}

impl PartialEq for FunctionId {
    fn eq(&self, other: &Self) -> (same: bool) {
        self.id == other.id
    }
}

impl vstd::std_specs::cmp::PartialEqSpecImpl for FunctionId {
    open spec fn obeys_eq_spec() -> bool {
        true
    }

    open spec fn eq_spec(&self, other: &Self) -> bool {
        self.id@ == other.id@
    }
}

impl Eq for FunctionId {

}

impl TableKey for FunctionId {
    fn same_key(&self, other: &Self) -> (same: bool) {
        self.id == other.id
    }

    fn copy_key(&self) -> (copy: Self) {
        FunctionId { id: self.id.clone() }
    }
}

impl From<FunctionId> for String {
    fn from(function: FunctionId) -> (id: Self) {
        function.id
    }
}

impl vstd::std_specs::convert::FromSpecImpl<FunctionId> for String {
    open spec fn obeys_from_spec() -> bool {
        true
    }

    open spec fn from_spec(function: FunctionId) -> Self {
        function.id
    }
}

impl From<&FunctionId> for String {
    fn from(function: &FunctionId) -> (id: String) {
        function.id.clone()
    }
}

impl vstd::std_specs::convert::FromSpecImpl<&FunctionId> for String {
    open spec fn obeys_from_spec() -> bool {
        true
    }

    open spec fn from_spec(function: &FunctionId) -> Self {
        function.id
    }
}

impl FunctionId {
    pub fn new(id: String) -> (function: Self)
        ensures
            function@ == id@,
    {
        FunctionId { id }
    }

    pub fn as_string(&self) -> (id: String)
        ensures
            id@ == self@,
    {
        self.id.clone()
    }

    pub fn as_str(&self) -> (id: &str)
        ensures
            id@ == self@,
    {
        self.id.as_str()
    }
}

/// The number of a deployment of a function.
#[derive(Clone, Copy, Debug, PartialEq, Eq, Hash, Structural)]
pub struct FunctionDeploymentId {
    pub id: u64,
}

impl FunctionDeploymentId {
    pub fn new(id: u64) -> (deployment: Self)
        ensures
            deployment.id == id,
    {
        FunctionDeploymentId { id }
    }
}

/// A function is known by its name alone: it has the name that it was given, a copy has the same, and
/// the name comes out as it went in.
pub proof fn functions_are_known_by_their_names(
    name: String,
    function: FunctionId,
    copy: FunctionId,
    text: String,
    part: &str,
)
    requires
        call_ensures(FunctionId::new, (name,), function),
        call_ensures(FunctionId::clone, (&function,), copy),
        call_ensures(FunctionId::as_string, (&function,), text),
        call_ensures(FunctionId::as_str, (&function,), part),
    ensures
        function.id@ == name@,
        copy.id@ == name@,
        text@ == name@,
        part@ == name@,
{
}

} // verus!
