//! Streams that a function hands to the host.
use vstd::prelude::*;

verus! {

/// A stream on the function's side.
#[derive(Clone, Copy, Debug, PartialEq, Eq, Structural)]
pub struct FunctionStreamResourceId {
    pub id: u64,
}

impl FunctionStreamResourceId {
    pub fn as_u64(&self) -> (id: u64)
        ensures
            id == self.id,
    {
        self.id
    }
}

impl From<u64> for FunctionStreamResourceId {
    fn from(id: u64) -> (out: Self) {
        FunctionStreamResourceId { id }
    }
}

impl vstd::std_specs::convert::FromSpecImpl<u64> for FunctionStreamResourceId {
    open spec fn obeys_from_spec() -> bool {
        true
    }

    open spec fn from_spec(id: u64) -> Self {
        FunctionStreamResourceId { id }
    }
}

} // verus!
