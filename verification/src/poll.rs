//! The outcome of asking an operation whether it is done.
use vstd::prelude::*;

verus! {

/// Not yet, or the result.
#[derive(Debug, PartialEq, Eq)]
pub enum Poll<T> {
    Pending,
    Ready(T),
}

} // verus!
