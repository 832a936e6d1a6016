//! A map whose keys are compared by what they stand for: its entries in the order
//! in which their keys first came, no key twice.
use vstd::prelude::*;

verus! {

/// A value that can be the key of a [`Table`]: its view decides which entries are the same.
pub trait TableKey: View + Sized {
    /// Whether two keys name the same entry.
    fn same_key(&self, other: &Self) -> (same: bool)
        ensures
            same == (self@ == other@),
    ;

    /// Another key that names the same entry.
    fn copy_key(&self) -> (copy: Self)
        ensures
            copy@ == self@,
    ;
}

impl TableKey for String {
    fn same_key(&self, other: &Self) -> (same: bool) {
        *self == *other
    }

    fn copy_key(&self) -> (copy: Self) {
        self.clone()
    }
}

impl TableKey for u64 {
    fn same_key(&self, other: &Self) -> (same: bool) {
        *self == *other
    }

    fn copy_key(&self) -> (copy: Self) {
        *self
    }
}

/// Entries in the order in which their keys first came.
pub struct Table<K: TableKey, V> {
    pub entries: Vec<(K, V)>,
}

impl<K: TableKey, V> View for Table<K, V> {
    type V = Map<K::V, V>;

    open spec fn view(&self) -> Map<K::V, V> {
        Map::new(
            |k: K::V| exists|i: int| self.key_is(i, k),
            |k: K::V| self.entries@[choose|i: int| self.key_is(i, k)].1,
        )
    }
}

impl<K: TableKey, V> Table<K, V> {
    /// Whether the entry at position `i` has the key `k`.
    pub open spec fn key_is(&self, i: int, k: K::V) -> bool {
        0 <= i < self.entries@.len() && self.entries@[i].0@ == k
    }

    /// No key stands twice.
    pub open spec fn wf(&self) -> bool {
        forall|i: int, j: int|
            #![trigger self.entries@[i], self.entries@[j]]
            0 <= i < j < self.entries@.len() ==> self.entries@[i].0@ != self.entries@[j].0@
    }

    /// The keys in the order of the entries.
    pub open spec fn keys(&self) -> Seq<K::V> {
        Seq::new(self.entries@.len(), |i: int| self.entries@[i].0@)
    }

    /// The entry at a position is the one that its key looks up.
    pub proof fn lemma_entry(&self, i: int)
        requires
            self.wf(),
            0 <= i < self.entries@.len(),
        ensures
            self@.dom().contains(self.entries@[i].0@),
            self@[self.entries@[i].0@] == self.entries@[i].1,
    {
        let k = self.entries@[i].0@;
        assert(self.key_is(i, k));
        let j = choose|j: int| self.key_is(j, k);
        assert(j == i) by {
            if j < i {
                assert(self.entries@[j].0@ != self.entries@[i].0@);
            } else if i < j {
                assert(self.entries@[i].0@ != self.entries@[j].0@);
            }
        }
    }

    /// Every key that is looked up stands at a position.
    pub proof fn lemma_position(&self, k: K::V) -> (i: int)
        requires
            self.wf(),
            self@.dom().contains(k),
        ensures
            self.key_is(i, k),
            self@[k] == self.entries@[i].1,
    {
        let i = choose|i: int| self.key_is(i, k);
        self.lemma_entry(i);
        i
    }

    /// A change of the value at one position is a change of the value of its key.
    pub proof fn lemma_changed(&self, before: Self, i: int)
        requires
            before.wf(),
            0 <= i < before.entries@.len(),
            self.entries@.len() == before.entries@.len(),
            self.entries@[i].0@ == before.entries@[i].0@,
            forall|j: int|
                0 <= j < before.entries@.len() && j != i ==> #[trigger] self.entries@[j]
                    == before.entries@[j],
        ensures
            self.wf(),
            self@ == before@.insert(before.entries@[i].0@, self.entries@[i].1),
            self.keys() == before.keys(),
    {
        let entry = self.entries@[i];
        assert(self.entries@ =~= before.entries@.update(i, entry));
        self.lemma_updated(before, i, entry.0, entry.1);
        assert(self.keys() =~= before.keys());
    }

    pub fn new() -> (table: Self)
        ensures
            table.wf(),
            table@ == Map::<K::V, V>::empty(),
            table.entries@.len() == 0,
    {
        let table = Table { entries: Vec::new() };
        assert(table@ =~= Map::<K::V, V>::empty());
        table
    }

    pub fn len(&self) -> (n: usize)
        ensures
            n == self.entries@.len(),
    {
        self.entries.len()
    }

    /// The position of the entry of a key, if it has one.
    pub fn position(&self, key: &K) -> (at: Option<usize>)
        requires
            self.wf(),
        ensures
            match at {
                Some(i) => self.key_is(i as int, key@) && self@.dom().contains(key@)
                    && self@[key@] == self.entries@[i as int].1,
                None => !self@.dom().contains(key@),
            },
    {
        let mut i: usize = 0;
        while i < self.entries.len()
            invariant
                self.wf(),
                i <= self.entries@.len(),
                forall|j: int| 0 <= j < i ==> self.entries@[j].0@ != key@,
            decreases self.entries@.len() - i,
        {
            if self.entries[i].0.same_key(key) {
                proof {
                    self.lemma_entry(i as int);
                }
                return Some(i);
            }
            i = i + 1;
        }
        None
    }

    pub fn contains_key(&self, key: &K) -> (found: bool)
        requires
            self.wf(),
        ensures
            found == self@.dom().contains(key@),
    {
        self.position(key).is_some()
    }

    pub fn get(&self, key: &K) -> (value: Option<&V>)
        requires
            self.wf(),
        ensures
            match value {
                Some(v) => self@.dom().contains(key@) && *v == self@[key@],
                None => !self@.dom().contains(key@),
            },
    {
        match self.position(key) {
            Some(i) => Some(&self.entries[i].1),
            None => None,
        }
    }

    pub fn get_mut(&mut self, key: &K) -> (value: Option<&mut V>)
        requires
            old(self).wf(),
        ensures
            final(self).wf(),
            final(self).keys() == old(self).keys(),
            match value {
                Some(v) => old(self)@.dom().contains(key@) && *v == old(self)@[key@]
                    && final(self)@ == old(self)@.insert(key@, *final(v)),
                None => !old(self)@.dom().contains(key@) && *final(self) == *old(self),
            },
    {
        match self.position(key) {
            Some(i) => {
                let ghost before = *self;
                let value = &mut self.entries[i].1;
                proof {
                    let kept = before.entries@[i as int].0;
                    let after = Table {
                        entries: after_borrow(self).entries,
                    };
                    after.lemma_updated(before, i as int, kept, *final(value));
                    assert(after.keys() =~= before.keys());
                }
                Some(value)
            },
            None => None,
        }
    }

    /// Gives `key` the value `value`; the value that it had before is returned.
    pub fn insert(&mut self, key: K, value: V) -> (previous: Option<V>)
        requires
            old(self).wf(),
        ensures
            final(self).wf(),
            final(self)@ == old(self)@.insert(key@, value),
            match previous {
                Some(v) => old(self)@.dom().contains(key@) && v == old(self)@[key@]
                    && final(self).keys() == old(self).keys(),
                None => !old(self)@.dom().contains(key@) && final(self).keys() == old(
                    self,
                ).keys().push(key@),
            },
    {
        let ghost before = *self;
        let at = self.position(&key);
        match at {
            Some(i) => {
                let mut slot = value;
                std::mem::swap(&mut self.entries[i].1, &mut slot);
                proof {
                    let kept = before.entries@[i as int].0;
                    assert(self.entries@ =~= before.entries@.update(i as int, (kept, value)));
                    self.lemma_updated(before, i as int, kept, value);
                    assert(self.keys() =~= before.keys());
                }
                Some(slot)
            },
            None => {
                self.entries.push((key, value));
                proof {
                    self.lemma_pushed(before, key, value);
                    assert(self.keys() =~= before.keys().push(key@));
                }
                None
            },
        }
    }

    proof fn lemma_updated(&self, before: Self, i: int, key: K, value: V)
        requires
            before.wf(),
            before.key_is(i, key@),
            self.entries@ == before.entries@.update(i, (key, value)),
        ensures
            self.wf(),
            self@ == before@.insert(key@, value),
    {
        assert forall|j: int, k: int|
            #![trigger self.entries@[j], self.entries@[k]]
            0 <= j < k < self.entries@.len() implies self.entries@[j].0@
            != self.entries@[k].0@ by {
            assert(before.entries@[j].0@ != before.entries@[k].0@);
        }
        assert forall|k: K::V| self@.dom().contains(k) == before@.insert(key@, value).dom().contains(
            k,
        ) by {
            if before@.dom().contains(k) {
                let p = before.lemma_position(k);
                assert(self.key_is(p, k));
            }
            if self@.dom().contains(k) {
                let p = self.lemma_position(k);
                assert(before.key_is(p, k));
            }
            assert(self.key_is(i, key@));
        }
        assert forall|k: K::V| self@.dom().contains(k) implies self@[k] == before@.insert(
            key@,
            value,
        )[k] by {
            let p = self.lemma_position(k);
            assert(before.key_is(p, k));
            before.lemma_entry(p);
            if k == key@ {
                self.lemma_entry(i);
            } else {
                assert(p != i);
            }
        }
        assert(self@ =~= before@.insert(key@, value));
    }

    proof fn lemma_pushed(&self, before: Self, key: K, value: V)
        requires
            before.wf(),
            !before@.dom().contains(key@),
            self.entries@ == before.entries@.push((key, value)),
        ensures
            self.wf(),
            self@ == before@.insert(key@, value),
    {
        let n = before.entries@.len() as int;
        assert forall|j: int, k: int|
            #![trigger self.entries@[j], self.entries@[k]]
            0 <= j < k < self.entries@.len() implies self.entries@[j].0@
            != self.entries@[k].0@ by {
            if k == n {
                assert(before.key_is(j, before.entries@[j].0@));
            } else {
                assert(before.entries@[j].0@ != before.entries@[k].0@);
            }
        }
        assert(self.key_is(n, key@));
        assert forall|k: K::V| self@.dom().contains(k) == before@.insert(key@, value).dom().contains(
            k,
        ) by {
            if before@.dom().contains(k) {
                let p = before.lemma_position(k);
                assert(self.key_is(p, k));
            }
            if self@.dom().contains(k) && k != key@ {
                let p = self.lemma_position(k);
                assert(before.key_is(p, k));
            }
        }
        assert forall|k: K::V| self@.dom().contains(k) implies self@[k] == before@.insert(
            key@,
            value,
        )[k] by {
            let p = self.lemma_position(k);
            if k == key@ {
                self.lemma_entry(n);
            } else {
                assert(before.key_is(p, k));
                before.lemma_entry(p);
            }
        }
        assert(self@ =~= before@.insert(key@, value));
    }

    /// Takes the entry of a key out of the table.
    pub fn remove(&mut self, key: &K) -> (removed: Option<V>)
        requires
            old(self).wf(),
        ensures
            final(self).wf(),
            final(self)@ == old(self)@.remove(key@),
            match removed {
                Some(v) => old(self)@.dom().contains(key@) && v == old(self)@[key@],
                None => !old(self)@.dom().contains(key@) && *final(self) == *old(self),
            },
    {
        let ghost before = *self;
        let at = self.position(key);
        match at {
            Some(i) => {
                let entry = self.entries.remove(i);
                proof {
                    self.lemma_removed(before, i as int, key@);
                }
                Some(entry.1)
            },
            None => {
                assert(before@.remove(key@) =~= before@);
                None
            },
        }
    }

    proof fn lemma_removed(&self, before: Self, i: int, k0: K::V)
        requires
            before.wf(),
            before.key_is(i, k0),
            self.entries@ == before.entries@.remove(i),
        ensures
            self.wf(),
            self@ == before@.remove(k0),
    {
        assert forall|j: int, k: int|
            #![trigger self.entries@[j], self.entries@[k]]
            0 <= j < k < self.entries@.len() implies self.entries@[j].0@
            != self.entries@[k].0@ by {
            let j0 = if j < i { j } else { j + 1 };
            let k0 = if k < i { k } else { k + 1 };
            assert(before.entries@[j0].0@ != before.entries@[k0].0@);
        }
        assert forall|k: K::V| self@.dom().contains(k) == before@.remove(k0).dom().contains(k) by {
            if before@.dom().contains(k) && k != k0 {
                let p = before.lemma_position(k);
                let q = if p < i { p } else { p - 1 };
                assert(self.key_is(q, k));
            }
            if self@.dom().contains(k) {
                let p = self.lemma_position(k);
                let q = if p < i { p } else { p + 1 };
                assert(before.key_is(q, k));
                if k == k0 {
                    if q < i {
                        assert(before.entries@[q].0@ != before.entries@[i].0@);
                    } else {
                        assert(before.entries@[i].0@ != before.entries@[q].0@);
                    }
                }
            }
        }
        assert forall|k: K::V| self@.dom().contains(k) implies self@[k] == before@.remove(
            k0,
        )[k] by {
            let p = self.lemma_position(k);
            let q = if p < i { p } else { p + 1 };
            assert(before.key_is(q, k));
            before.lemma_entry(q);
        }
        assert(self@ =~= before@.remove(k0));
    }
}

/// Looking up a key gives the value of the entry with that key, and nothing exactly where no entry has
/// it.
pub proof fn lookups_find_their_entries<K: TableKey, V>(
    table: &Table<K, V>,
    key: &K,
    value: Option<&V>,
    found: bool,
    i: int,
)
    requires
        table.wf(),
        call_ensures(Table::<K, V>::get, (table, key), value),
        call_ensures(Table::<K, V>::contains_key, (table, key), found),
    ensures
        found <==> value is Some,
        0 <= i < table.entries@.len() && table.entries@[i].0@ == key@ ==> value is Some
            && *(value->0) == table.entries@[i].1,
        value is Some ==> exists|j: int|
            0 <= j < table.entries@.len() && (#[trigger] table.entries@[j]).0@ == key@
                && table.entries@[j].1 == *(value->0),
{
    if 0 <= i < table.entries@.len() && table.entries@[i].0@ == key@ {
        table.lemma_entry(i);
    }
    if value is Some {
        let j = choose|j: int| table.key_is(j, key@);
        assert(table.key_is(j, key@));
        table.lemma_entry(j);
        assert(table.entries@[j].0@ == key@);
    }
}

/// A value is found under its key once it is put in and no longer once it is taken out, and what is found
/// under other keys stays as it is; what was there before is handed back.
pub proof fn values_are_found_until_taken_out<K: TableKey, V>(
    key: K,
    value: V,
    previous: Option<V>,
    removed: Option<V>,
    probe: &K,
    before: Option<&V>,
    after: Option<&V>,
)
    ensures
        forall|table: &mut Table<K, V>|
            #![trigger call_ensures(Table::<K, V>::insert, (table, key, value), previous)]
            call_ensures(Table::<K, V>::insert, (table, key, value), previous) && call_ensures(
                Table::<K, V>::get,
                (&*table, probe),
                before,
            ) && call_ensures(Table::<K, V>::get, (&*final(table), probe), after) ==> {
                &&& probe@ == key@ ==> after is Some && *(after->0) == value && (previous is Some
                    <==> before is Some) && (previous is Some ==> previous->0 == *(before->0))
                &&& probe@ != key@ ==> (after is Some <==> before is Some) && (after is Some
                    ==> *(after->0) == *(before->0))
            },
        forall|table: &mut Table<K, V>|
            #![trigger call_ensures(Table::<K, V>::remove, (table, &key), removed)]
            call_ensures(Table::<K, V>::remove, (table, &key), removed) && call_ensures(
                Table::<K, V>::get,
                (&*table, probe),
                before,
            ) && call_ensures(Table::<K, V>::get, (&*final(table), probe), after) ==> {
                &&& probe@ == key@ ==> after is None && (removed is Some <==> before is Some) && (
                removed is Some ==> removed->0 == *(before->0))
                &&& probe@ != key@ ==> (after is Some <==> before is Some) && (after is Some
                    ==> *(after->0) == *(before->0))
            },
{
}

/// A key that is new comes after those that were there, and one that was there keeps its place.
pub proof fn keys_keep_their_places<K: TableKey, V>(key: K, value: V, previous: Option<V>, i: int)
    ensures
        forall|table: &mut Table<K, V>| #[trigger]
            call_ensures(Table::<K, V>::insert, (table, key, value), previous) ==> {
                &&& 0 <= i < table.entries@.len() ==> final(table).entries@[i].0@
                    == table.entries@[i].0@
                &&& previous is Some ==> final(table).entries@.len() == table.entries@.len()
                &&& previous is None ==> final(table).entries@.len() == table.entries@.len() + 1
                    && final(table).entries@.last().0@ == key@
            },
{
    assert forall|table: &mut Table<K, V>| #[trigger]
        call_ensures(Table::<K, V>::insert, (table, key, value), previous) implies {
        &&& 0 <= i < table.entries@.len() ==> final(table).entries@[i].0@ == table.entries@[i].0@
        &&& previous is Some ==> final(table).entries@.len() == table.entries@.len()
        &&& previous is None ==> final(table).entries@.len() == table.entries@.len() + 1 && final(
            table
        ).entries@.last().0@ == key@
    } by {
        let before = table.keys();
        let after = final(table).keys();
        assert(before.len() == table.entries@.len());
        assert(after.len() == final(table).entries@.len());
        if 0 <= i < before.len() {
            assert(after[i] == before[i]);
        }
        if previous is None {
            assert(after.last() == key@);
        }
    }
}

} // verus!
