//! Queues of messages.
use vstd::prelude::*;

verus! {

/// Something that messages are pushed to.
pub trait Queue {
    fn push(&self, message: &[u8]);
}

/// A queue that is owned.
pub struct BoxStream<T: Queue> {
    pub inner: T,
}

impl<T: Queue> BoxStream<T> {
    pub fn new(inner: T) -> (stream: Self)
        ensures
            stream.inner == inner,
    {
        BoxStream { inner }
    }
}

} // verus!
