//! Resources of a function that the host takes over.
use vstd::prelude::*;

use crate::resources::resource::{FunctionResourceId, OwnedFunctionResourceId};

verus! {

/// What an instance is asked to do with a resource of its function.
#[derive(Clone, Copy, Debug, PartialEq, Eq, Structural)]
pub enum ResourceCall {
    /// Its bytes are moved out of the function, which then no longer has it.
    MoveToHost(FunctionResourceId),
    /// It is dropped on the function's side.
    Drop(FunctionResourceId),
}

/// What the host makes of the bytes of a resource: `R` holds the resources of the function that is
/// on the host, `I` is the instance that the bytes came from.
pub trait DeserializeFunctionResource<R, I>: Sized {
    type Error;

    fn deserialize(resource_set: &mut R, resource: &[u8], instance: I) -> (deserialized: Result<
        Self,
        Self::Error,
    >);
}

/// A resource that came from a function and has not been taken over yet: its bytes are still in the
/// function. A resource that is given up without being taken over is to be dropped on the
/// function's side.
pub struct SerializedFunctionResource<I> {
    pub resource: OwnedFunctionResourceId<I>,
}

/// A resource whose bytes are on their way to the host. Nothing is left to be dropped on the
/// function's side.
pub struct MovingFunctionResource<I> {
    pub instance: I,
    pub resource: FunctionResourceId,
}

impl<I> SerializedFunctionResource<I> {
    /// A resource of an instance, of which nothing is read yet.
    pub fn new(instance: I, resource: FunctionResourceId) -> (serialized: Self)
        ensures
            serialized.resource@ == Some((instance, resource)),
    {
        SerializedFunctionResource { resource: OwnedFunctionResourceId::new(instance, resource) }
    }

    /// Takes the resource over: its bytes are asked for, once. `calls` is what the instance is asked
    /// to do, in order.
    pub fn move_to_host(self, calls: &mut Vec<ResourceCall>) -> (moving: MovingFunctionResource<I>)
        requires
            self.resource@ is Some,
        ensures
            Some((moving.instance, moving.resource)) == self.resource@,
            final(calls)@ == old(calls)@.push(ResourceCall::MoveToHost(moving.resource)),
    {
        let (instance, resource) = self.resource.consume();
        calls.push(ResourceCall::MoveToHost(resource));
        MovingFunctionResource { instance, resource }
    }

    /// Gives the resource up: it is dropped on the function's side.
    pub fn dropped(self, calls: &mut Vec<ResourceCall>)
        ensures
            final(calls)@ == (match self.resource@ {
                Some((_, resource)) => old(calls)@.push(ResourceCall::Drop(resource)),
                None => old(calls)@,
            }),
    {
        let mut owned = self.resource;
        if let Some((_, resource)) = owned.release() {
            calls.push(ResourceCall::Drop(resource));
        }
    }
}

impl<I> MovingFunctionResource<I> {
    /// What the bytes of the resource are deserialized to, or why they are not.
    pub fn finish<R, T: DeserializeFunctionResource<R, I>>(
        self,
        resource_set: &mut R,
        bytes: &[u8],
    ) -> (taken: Result<T, T::Error>)
        ensures
            exists|set: &mut R| #[trigger]
                call_ensures(T::deserialize, (set, bytes, self.instance), taken) && *set == *old(
                    resource_set,
                ) && *final(set) == *final(resource_set),
    {
        T::deserialize(resource_set, bytes, self.instance)
    }
}

/// How often an instance is asked for something.
pub open spec fn times(calls: Seq<ResourceCall>, call: ResourceCall) -> nat
    decreases calls.len(),
{
    if calls.len() == 0 {
        0
    } else if calls.last() == call {
        times(calls.drop_last(), call) + 1
    } else {
        times(calls.drop_last(), call)
    }
}

/// A resource of which nothing was asked before, and that is taken over, is moved out of its
/// function once and not dropped there; one that is given up is dropped there once and not moved.
/// Nothing else is asked of the instance on its account.
pub proof fn resources_are_moved_or_dropped_once(
    before: Seq<ResourceCall>,
    resource: FunctionResourceId,
    other: ResourceCall,
)
    requires
        times(before, ResourceCall::MoveToHost(resource)) == 0,
        times(before, ResourceCall::Drop(resource)) == 0,
        other != ResourceCall::MoveToHost(resource),
        other != ResourceCall::Drop(resource),
    ensures
        ({
            let taken_over = before.push(ResourceCall::MoveToHost(resource));
            let given_up = before.push(ResourceCall::Drop(resource));
            &&& times(taken_over, ResourceCall::MoveToHost(resource)) == 1
            &&& times(taken_over, ResourceCall::Drop(resource)) == 0
            &&& times(taken_over, other) == times(before, other)
            &&& times(given_up, ResourceCall::MoveToHost(resource)) == 0
            &&& times(given_up, ResourceCall::Drop(resource)) == 1
            &&& times(given_up, other) == times(before, other)
        }),
{
    let taken_over = before.push(ResourceCall::MoveToHost(resource));
    let given_up = before.push(ResourceCall::Drop(resource));
    assert(taken_over.drop_last() =~= before);
    assert(given_up.drop_last() =~= before);
}

/// A resource that is taken over is moved once, and it is the one that came; one that is given up is
/// dropped once. What was called before stays before.
pub proof fn resources_are_moved_or_dropped_in_order<I>(
    serialized: SerializedFunctionResource<I>,
    moving: MovingFunctionResource<I>,
)
    requires
        serialized.resource@ is Some,
    ensures
        forall|calls: &mut Vec<ResourceCall>| #[trigger]
            call_ensures(
                SerializedFunctionResource::<I>::move_to_host,
                (serialized, calls),
                moving,
            ) ==> {
                &&& serialized.resource@ == Some((moving.instance, moving.resource))
                &&& final(calls)@.len() == calls@.len() + 1
                &&& final(calls)@.last() == ResourceCall::MoveToHost(moving.resource)
                &&& final(calls)@.drop_last() =~= calls@
            },
        forall|calls: &mut Vec<ResourceCall>| #[trigger]
            call_ensures(SerializedFunctionResource::<I>::dropped, (serialized, calls), ()) ==> {
                &&& final(calls)@.len() == calls@.len() + 1
                &&& final(calls)@.last() == ResourceCall::Drop((serialized.resource@->0).1)
                &&& final(calls)@.drop_last() =~= calls@
            },
{
}

} // verus!
