//! Tables of resources, and the numbers that name a resource across the boundary.
use vstd::prelude::*;

verus! {

/// A `slotmap::SlotMap`, whose key type is bound by a trait of its crate.
#[verifier::external_body]
pub struct SlotIndex {
    map: slotmap::SlotMap<slotmap::DefaultKey, usize>,
}

/// What a slot map holds: the value of each live key, the key as the number that
/// `KeyData::as_ffi` gives for it.
pub uninterp spec fn slots(index: SlotIndex) -> Map<u64, usize>;

/// The number of the key that `KeyData::from_ffi` makes of `id`: live keys have an odd version,
/// which stands in the upper half, so its lowest bit is always set.
pub open spec fn slot_key(id: u64) -> u64 {
    id | 0x1_0000_0000
}

/// `SlotMap::new`: a map without entries.
#[verifier::external_body]
fn slots_new() -> (index: SlotIndex)
    ensures
        slots(index).dom() == Set::<u64>::empty(),
{
    SlotIndex { map: slotmap::SlotMap::new() }
}

/// `SlotMap::insert`: stores a value under a key that no entry has. It panics where the map is
/// full, which its source shows for no map of fewer than `u32::MAX - 1` entries.
#[verifier::external_body]
fn slots_insert(index: &mut SlotIndex, value: usize) -> (id: u64)
    requires
        slots(*old(index)).dom().len() < 0xffff_fffe,
    ensures
        !slots(*old(index)).dom().contains(id),
        slot_key(id) == id,
        slots(*final(index)) == slots(*old(index)).insert(id, value),
{
    slotmap::Key::data(&index.map.insert(value)).as_ffi()
}

/// `SlotMap::get` on the key that `KeyData::from_ffi` makes of a number.
#[verifier::external_body]
fn slots_get(index: &SlotIndex, id: u64) -> (value: Option<usize>)
    ensures
        value == (if slots(*index).dom().contains(slot_key(id)) {
            Some(slots(*index)[slot_key(id)])
        } else {
            None
        }),
{
    index.map.get(slotmap::KeyData::from_ffi(id).into()).copied()
}

/// `SlotMap::get_mut` on the key that `KeyData::from_ffi` makes of a number.
#[verifier::external_body]
fn slots_get_mut(index: &mut SlotIndex, id: u64) -> (slot: Option<
    &mut usize,
>)
    ensures
        match slot {
            Some(value) => slots(*old(index)).dom().contains(slot_key(id)) && *value == slots(
                *old(index),
            )[slot_key(id)] && slots(*final(index)) == slots(*old(index)).insert(
                slot_key(id),
                *final(value),
            ),
            None => !slots(*old(index)).dom().contains(slot_key(id)) && slots(*final(index)) == slots(
                *old(index),
            ),
        },
{
    index.map.get_mut(slotmap::KeyData::from_ffi(id).into())
}

/// `SlotMap::remove` on the key that `KeyData::from_ffi` makes of a number.
#[verifier::external_body]
fn slots_remove(index: &mut SlotIndex, id: u64) -> (value: Option<
    usize,
>)
    ensures
        value == (if slots(*old(index)).dom().contains(slot_key(id)) {
            Some(slots(*old(index))[slot_key(id)])
        } else {
            None
        }),
        slots(*final(index)) == slots(*old(index)).remove(slot_key(id)),
{
    index.map.remove(slotmap::KeyData::from_ffi(id).into())
}

/// A resource on the host's side.
#[derive(Clone, Copy, Debug, PartialEq, Eq, Structural)]
pub struct ResourceId {
    pub id: u64,
}

impl ResourceId {
    pub fn new(id: u64) -> (resource: Self)
        ensures
            resource.id == id,
    {
        ResourceId { id }
    }

    pub fn as_u64(&self) -> (id: u64)
        ensures
            id == self.id,
    {
        self.id
    }
}

/// A resource on the function's side.
#[derive(Clone, Copy, Debug, PartialEq, Eq, Structural)]
pub struct FunctionResourceId {
    pub id: u64,
}

impl FunctionResourceId {
    pub fn new(id: u64) -> (resource: Self)
        ensures
            resource.id == id,
    {
        FunctionResourceId { id }
    }

    pub fn as_u64(&self) -> (id: u64)
        ensures
            id == self.id,
    {
        self.id
    }
}

impl From<u64> for ResourceId {
    fn from(id: u64) -> (out: Self) {
        ResourceId { id }
    }
}

impl vstd::std_specs::convert::FromSpecImpl<u64> for ResourceId {
    open spec fn obeys_from_spec() -> bool {
        true
    }

    open spec fn from_spec(id: u64) -> Self {
        ResourceId { id }
    }
}

impl From<u64> for FunctionResourceId {
    fn from(id: u64) -> (out: Self) {
        FunctionResourceId { id }
    }
}

impl vstd::std_specs::convert::FromSpecImpl<u64> for FunctionResourceId {
    open spec fn obeys_from_spec() -> bool {
        true
    }

    open spec fn from_spec(id: u64) -> Self {
        FunctionResourceId { id }
    }
}

/// A resource of a function that the host owns: `I` is the instance that holds it. Given up
/// without being consumed, it is to be dropped on the function's side.
pub struct OwnedFunctionResourceId<I> {
    held: Option<(I, FunctionResourceId)>,
}

impl<I> View for OwnedFunctionResourceId<I> {
    type V = Option<(I, FunctionResourceId)>;

    closed spec fn view(&self) -> Option<(I, FunctionResourceId)> {
        self.held
    }
}

impl<I> OwnedFunctionResourceId<I> {
    pub fn new(function_instance: I, resource_id: FunctionResourceId) -> (owned: Self)
        ensures
            owned@ == Some((function_instance, resource_id)),
    {
        OwnedFunctionResourceId { held: Some((function_instance, resource_id)) }
    }

    pub fn consume(self) -> (parts: (I, FunctionResourceId))
        requires
            self@ is Some,
        ensures
            Some(parts) == self@,
    {
        self.held.unwrap()
    }

    /// What is to be dropped on the function's side when the host gives the resource up.
    pub fn release(&mut self) -> (dropped: Option<(I, FunctionResourceId)>)
        ensures
            dropped == old(self)@,
            final(self)@ is None,
    {
        self.held.take()
    }
}

/// Resources under the numbers by which they are handed out. The slot map gives the numbers and
/// says where in `items` the resource of each stands.
pub struct ResourceTable<V> {
    index: SlotIndex,
    items: Vec<(u64, V)>,
}

impl<V> View for ResourceTable<V> {
    type V = Map<u64, V>;

    closed spec fn view(&self) -> Map<u64, V> {
        Map::new(
            |id: u64| slots(self.index).dom().contains(id),
            |id: u64| self.items@[slots(self.index)[id] as int].1,
        )
    }
}

impl<V> ResourceTable<V> {
    /// The slot map and the items agree, one item for one live number.
    pub closed spec fn wf(&self) -> bool {
        &&& slots(self.index).dom().finite()
        &&& slots(self.index).dom().len() == self.items@.len()
        &&& forall|i: int|
            #![trigger self.items@[i]]
            0 <= i < self.items@.len() ==> slots(self.index).dom().contains(self.items@[i].0)
                && slots(self.index)[self.items@[i].0] == i
        &&& forall|id: u64| #[trigger]
            slots(self.index).dom().contains(id) ==> slot_key(id) == id && slots(self.index)[id]
                < self.items@.len() && self.items@[slots(self.index)[id] as int].0 == id
    }

    /// Every number under which a resource is held is its own key, so that it leads back to the
    /// resource.
    pub proof fn held_numbers_are_keys(&self, id: u64)
        requires
            self.wf(),
            self@.dom().contains(id),
        ensures
            slot_key(id) == id,
    {
    }

    /// Whether one more resource fits: the slot map numbers at most this many.
    pub open spec fn has_room(&self) -> bool {
        self@.dom().len() < 0xffff_fffe
    }

    pub fn new() -> (table: Self)
        ensures
            table.wf(),
            table@ == Map::<u64, V>::empty(),
    {
        let table = ResourceTable { index: slots_new(), items: Vec::new() };
        assert(table@ =~= Map::<u64, V>::empty());
        table
    }

    /// How many resources the table holds.
    pub fn len(&self) -> (n: usize)
        requires
            self.wf(),
        ensures
            n == self@.dom().len(),
    {
        assert(self@.dom() =~= slots(self.index).dom());
        self.items.len()
    }

    /// Stores a resource under a number that no other has.
    pub fn insert(&mut self, value: V) -> (id: u64)
        requires
            old(self).wf(),
            old(self).has_room(),
        ensures
            final(self).wf(),
            !old(self)@.dom().contains(id),
            slot_key(id) == id,
            final(self)@ == old(self)@.insert(id, value),
    {
        let ghost before = *self;
        assert(self@.dom() =~= slots(self.index).dom());
        let at: usize = self.items.len();
        let id: u64 = slots_insert(&mut self.index, at);
        self.items.push((id, value));
        proof {
            assert forall|i: int|
                #![trigger self.items@[i]]
                0 <= i < self.items@.len() implies slots(self.index).dom().contains(self.items@[i].0)
                && slots(self.index)[self.items@[i].0] == i by {
                if i < at {
                    assert(before.items@[i] == self.items@[i]);
                }
            }
            assert forall|k: u64| #[trigger] slots(self.index).dom().contains(k) implies slot_key(k)
                == k && slots(self.index)[k] < self.items@.len() && self.items@[slots(
                self.index,
            )[k] as int].0 == k by {
                if k != id {
                    assert(slots(before.index).dom().contains(k));
                }
            }
            assert forall|k: u64| self@.dom().contains(k) implies self@[k] == before@.insert(
                id,
                value,
            )[k] by {
                if k != id {
                    assert(slots(before.index).dom().contains(k));
                }
            }
            assert(self@ =~= before@.insert(id, value));
        }
        id
    }

    pub fn get(&self, id: u64) -> (value: Option<&V>)
        requires
            self.wf(),
        ensures
            match value {
                Some(v) => self@.dom().contains(slot_key(id)) && *v == self@[slot_key(id)],
                None => !self@.dom().contains(slot_key(id)),
            },
    {
        match slots_get(&self.index, id) {
            Some(at) => Some(&self.items[at].1),
            None => None,
        }
    }

    pub fn get_mut(&mut self, id: u64) -> (value: Option<&mut V>)
        requires
            old(self).wf(),
        ensures
            final(self).wf(),
            match value {
                Some(v) => old(self)@.dom().contains(slot_key(id)) && *v == old(self)@[slot_key(id)]
                    && final(self)@ == old(self)@.insert(slot_key(id), *final(v)),
                None => !old(self)@.dom().contains(slot_key(id)) && *final(self) == *old(self),
            },
    {
        match slots_get(&self.index, id) {
            Some(at) => Some(&mut self.items[at].1),
            None => None,
        }
    }

    /// Takes a resource out of the table.
    pub fn remove(&mut self, id: u64) -> (value: Option<V>)
        requires
            old(self).wf(),
        ensures
            final(self).wf(),
            final(self)@ == old(self)@.remove(slot_key(id)),
            match value {
                Some(v) => old(self)@.dom().contains(slot_key(id)) && v == old(self)@[slot_key(id)],
                None => !old(self)@.dom().contains(slot_key(id)),
            },
    {
        let ghost before = *self;
        let ghost key = slot_key(id);
        let removed = slots_remove(&mut self.index, id);
        match removed {
            None => {
                assert(slots(self.index) =~= slots(before.index));
                assert(self@ =~= before@.remove(key));
                None
            },
            Some(at) => {
                let item = self.items.swap_remove(at);
                if at < self.items.len() {
                    let moved: u64 = self.items[at].0;
                    if let Some(slot) = slots_get_mut(&mut self.index, moved) {
                        *slot = at;
                    }
                }
                Some(item.1)
            },
        }
    }
}

/// What is kept is found under the number that was given for it and no longer once it is taken out; what
/// is found under other numbers stays as it is.
pub proof fn kept_values_are_found_until_taken_out<V>(
    value: V,
    id: u64,
    taken: Option<V>,
    probe: u64,
    before: Option<&V>,
    after: Option<&V>,
)
    ensures
        forall|table: &mut ResourceTable<V>|
            #![trigger call_ensures(ResourceTable::<V>::insert, (table, value), id)]
            call_ensures(ResourceTable::<V>::insert, (table, value), id) && call_ensures(
                ResourceTable::<V>::get,
                (&*table, probe),
                before,
            ) && call_ensures(ResourceTable::<V>::get, (&*final(table), probe), after) ==> {
                &&& probe == id ==> before is None && after is Some && *(after->0) == value
                &&& before is Some ==> after is Some && *(after->0) == *(before->0)
            },
        forall|table: &mut ResourceTable<V>|
            #![trigger call_ensures(ResourceTable::<V>::remove, (table, id), taken)]
            call_ensures(ResourceTable::<V>::remove, (table, id), taken) && call_ensures(
                ResourceTable::<V>::get,
                (&*table, probe),
                before,
            ) && call_ensures(ResourceTable::<V>::get, (&*final(table), probe), after) ==> {
                &&& probe == id ==> after is None && (taken is Some <==> before is Some) && (
                taken is Some ==> taken->0 == *(before->0))
                &&& slot_key(probe) != slot_key(id) ==> (after is Some <==> before is Some) && (
                after is Some ==> *(after->0) == *(before->0))
            },
{
}

/// A resource of a function is handed over or given up once, as it was held.
pub proof fn held_resources_leave_once<I>(
    instance: I,
    resource: FunctionResourceId,
    owned: OwnedFunctionResourceId<I>,
    parts: (I, FunctionResourceId),
    dropped: Option<(I, FunctionResourceId)>,
)
    requires
        call_ensures(OwnedFunctionResourceId::<I>::new, (instance, resource), owned),
        call_ensures(OwnedFunctionResourceId::<I>::consume, (owned,), parts),
    ensures
        parts.0 == instance,
        parts.1 == resource,
        forall|o: &mut OwnedFunctionResourceId<I>| #[trigger]
            call_ensures(OwnedFunctionResourceId::<I>::release, (o,), dropped) ==> dropped == o@
                && final(o)@ is None,
{
}

} // verus!
