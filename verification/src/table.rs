//! A small keyed table.

use vstd::prelude::*;

use crate::types::Address;

verus! {

/// A key whose values can be compared at run time.
pub trait TableKey: Sized {
    /// Tells whether two keys are the same.
    fn same(&self, other: &Self) -> (same: bool)
        ensures
            same == (*self == *other),
    ;
}

impl TableKey for u64 {
    fn same(&self, other: &Self) -> (same: bool) {
        *self == *other
    }
}

impl TableKey for [u8; 32] {
    fn same(&self, other: &Self) -> (same: bool) {
        let mut i: usize = 0;
        while i < 32
            invariant
                i <= 32,
                forall|j: int| 0 <= j < i ==> self[j] == other[j],
            decreases 32 - i,
        {
            if self[i] != other[i] {
                return false;
            }
            i += 1;
        }
        assert(*self =~= *other);
        true
    }
}

impl TableKey for Address {
    fn same(&self, other: &Self) -> (same: bool) {
        let mut i: usize = 0;
        while i < 56
            invariant
                i <= 56,
                forall|j: int| 0 <= j < i ==> self.strkey[j] == other.strkey[j],
            decreases 56 - i,
        {
            if self.strkey[i] != other.strkey[i] {
                return false;
            }
            i += 1;
        }
        assert(self.strkey =~= other.strkey);
        true
    }
}

impl TableKey for (u64, Address) {
    fn same(&self, other: &Self) -> (same: bool) {
        self.0 == other.0 && self.1.same(&other.1)
    }
}

/// A table with at most one value under each key. It is meant for the handful of entries that
/// one invocation touches, so a lookup reads the entries one by one.
pub struct Table<K, V> {
    entries: Vec<(K, V)>,
}

impl<K, V> Table<K, V> {
    #[verifier::type_invariant]
    spec fn keys_are_distinct(self) -> bool {
        forall|i: int, j: int|
            0 <= i < j < self.entries@.len() ==> #[trigger] self.entries@[i].0
                != #[trigger] self.entries@[j].0
    }

    /// Whether entry `i` exists and is the one under `key`.
    spec fn holds_at(self, key: K, i: int) -> bool {
        0 <= i < self.entries@.len() && self.entries@[i].0 == key
    }
}

impl<K: TableKey, V: View> View for Table<K, V> {
    type V = Map<K, V::V>;

    closed spec fn view(&self) -> Map<K, V::V> {
        Map::new(
            |key: K| exists|i: int| self.holds_at(key, i),
            |key: K| self.entries@[choose|i: int| self.holds_at(key, i)].1@,
        )
    }
}

impl<K: TableKey, V: View> Table<K, V> {
    proof fn lemma_value_at(self, key: K, i: int)
        requires
            self.keys_are_distinct(),
            self.holds_at(key, i),
        ensures
            self@.contains_key(key),
            self@[key] == self.entries@[i].1@,
    {
        let j = choose|j: int| self.holds_at(key, j);
        assert(self.holds_at(key, j));
        assert(i == j);
    }

    proof fn lemma_entry_replaced(self, after: Self, key: K, value: V, i: int)
        requires
            self.keys_are_distinct(),
            after.keys_are_distinct(),
            self.holds_at(key, i),
            after.entries@ == self.entries@.update(i, (key, value)),
        ensures
            after@ == self@.insert(key, value@),
    {
        assert forall|k: K| after@.contains_key(k) == self@.insert(key, value@).contains_key(k) by {
            if after@.contains_key(k) {
                let j = choose|j: int| after.holds_at(k, j);
                assert(self.holds_at(k, j));
            }
            if self@.contains_key(k) {
                let j = choose|j: int| self.holds_at(k, j);
                assert(after.holds_at(k, j));
            }
            assert(after.holds_at(key, i));
        }
        assert forall|k: K| #[trigger] after@.contains_key(k) implies after@[k] == self@.insert(
            key,
            value@,
        )[k] by {
            let j = choose|j: int| after.holds_at(k, j);
            after.lemma_value_at(k, j);
            if k != key {
                self.lemma_value_at(k, j);
            }
        }
        assert(after@ =~= self@.insert(key, value@));
    }

    proof fn lemma_entry_added(self, after: Self, key: K, value: V)
        requires
            self.keys_are_distinct(),
            after.keys_are_distinct(),
            forall|i: int| !self.holds_at(key, i),
            after.entries@ == self.entries@.push((key, value)),
        ensures
            after@ == self@.insert(key, value@),
    {
        let last = self.entries@.len() as int;
        assert(after.holds_at(key, last));
        after.lemma_value_at(key, last);
        assert forall|k: K| after@.contains_key(k) == self@.insert(key, value@).contains_key(k) by {
            if after@.contains_key(k) && k != key {
                let j = choose|j: int| after.holds_at(k, j);
                assert(self.holds_at(k, j));
            }
            if self@.contains_key(k) {
                let j = choose|j: int| self.holds_at(k, j);
                assert(after.holds_at(k, j));
            }
        }
        assert forall|k: K| #[trigger] after@.contains_key(k) implies after@[k] == self@.insert(
            key,
            value@,
        )[k] by {
            if k != key {
                let j = choose|j: int| after.holds_at(k, j);
                after.lemma_value_at(k, j);
                self.lemma_value_at(k, j);
            }
        }
        assert(after@ =~= self@.insert(key, value@));
    }

    proof fn lemma_entry_removed(self, after: Self, key: K, i: int)
        requires
            self.keys_are_distinct(),
            after.keys_are_distinct(),
            self.holds_at(key, i),
            after.entries@ == self.entries@.remove(i),
        ensures
            after@ == self@.remove(key),
    {
        assert forall|k: K| after@.contains_key(k) == self@.remove(key).contains_key(k) by {
            if after@.contains_key(k) {
                let j = choose|j: int| after.holds_at(k, j);
                let before = if j < i { j } else { j + 1 };
                assert(self.holds_at(k, before));
                assert(k != key);
            }
            if self@.contains_key(k) && k != key {
                let j = choose|j: int| self.holds_at(k, j);
                assert(after.holds_at(k, if j < i { j } else { j - 1 }));
            }
        }
        assert forall|k: K| #[trigger] after@.contains_key(k) implies after@[k] == self@.remove(
            key,
        )[k] by {
            let j = choose|j: int| after.holds_at(k, j);
            after.lemma_value_at(k, j);
            self.lemma_value_at(k, if j < i { j } else { j + 1 });
        }
        assert(after@ =~= self@.remove(key));
    }

    /// Makes a table without entries.
    pub fn new() -> (table: Self)
        ensures
            table@ == Map::<K, V::V>::empty(),
    {
        let table = Table { entries: Vec::new() };
        assert(table@ =~= Map::<K, V::V>::empty());
        table
    }

    /// Finds the entry under `key`.
    fn position(&self, key: &K) -> (position: Option<usize>)
        ensures
            match position {
                Some(i) => self.holds_at(*key, i as int) && self@.contains_key(*key) && self@[*key]
                    == self.entries@[i as int].1@,
                None => !self@.contains_key(*key) && forall|i: int| !self.holds_at(*key, i),
            },
    {
        proof {
            use_type_invariant(self);
        }
        let mut i: usize = 0;
        while i < self.entries.len()
            invariant
                self.keys_are_distinct(),
                i <= self.entries@.len(),
                forall|j: int| 0 <= j < i ==> self.entries@[j].0 != *key,
            decreases self.entries@.len() - i,
        {
            if self.entries[i].0.same(key) {
                proof {
                    self.lemma_value_at(*key, i as int);
                }
                return Some(i);
            }
            i += 1;
        }
        None
    }

    /// Tells whether there is a value under `key`.
    pub fn has(&self, key: &K) -> (found: bool)
        ensures
            found == self@.contains_key(*key),
    {
        self.position(key).is_some()
    }

    /// Returns the value under `key`, if there is one.
    pub fn get(&self, key: &K) -> (value: Option<&V>)
        ensures
            match value {
                Some(v) => self@.contains_key(*key) && v@ == self@[*key],
                None => !self@.contains_key(*key),
            },
    {
        match self.position(key) {
            Some(i) => Some(&self.entries[i].1),
            None => None,
        }
    }

    /// Puts `value` under `key`, in place of what was there.
    pub fn set(&mut self, key: K, value: V)
        ensures
            final(self)@ == old(self)@.insert(key, value@),
    {
        proof {
            use_type_invariant(&*self);
        }
        let position = self.position(&key);
        let ghost before = *self;
        let mut entries: Vec<(K, V)> = Vec::new();
        std::mem::swap(&mut entries, &mut self.entries);
        match position {
            Some(i) => {
                entries.set(i, (key, value));
            },
            None => {
                entries.push((key, value));
                assert forall|i: int| 0 <= i < before.entries@.len() implies entries@[i].0
                    != key by {
                    assert(!before.holds_at(key, i));
                }
            },
        }
        self.entries = entries;
        proof {
            match position {
                Some(i) => before.lemma_entry_replaced(*self, key, value, i as int),
                None => before.lemma_entry_added(*self, key, value),
            }
        }
    }

    /// Removes the value under `key`, if there is one.
    pub fn remove(&mut self, key: &K)
        ensures
            final(self)@ == old(self)@.remove(*key),
    {
        proof {
            use_type_invariant(&*self);
        }
        let position = self.position(key);
        let ghost before = *self;
        match position {
            Some(i) => {
                let mut entries: Vec<(K, V)> = Vec::new();
                std::mem::swap(&mut entries, &mut self.entries);
                entries.remove(i);
                self.entries = entries;
                proof {
                    before.lemma_entry_removed(*self, *key, i as int);
                }
            },
            None => {
                assert(self@ =~= before@.remove(*key));
            },
        }
    }
}

} // verus!
