//! A store of records under keys, one record per key.
use vstd::prelude::*;
use crate::account::Key;

verus! {

/// Why an operation on a record store was refused.
#[derive(Clone, Copy, Debug, PartialEq, Eq, Structural)]
pub enum StoreError {
    /// A record is already stored under the key.
    AlreadyExists,
    /// No record is stored under the key.
    NotFound,
}

/// A mapping from keys to records, held in memory.
///
/// The store behaves as the finite map `self@`: every operation is stated
/// over that map. No key is ever held twice.
pub struct KeyedStore<K, V> {
    slots: Vec<(K, V)>,
}

/// Whether slot `i` of `slots` holds a record under key `k`.
spec fn held_at<K, V>(slots: Seq<(K, V)>, k: K, i: int) -> bool {
    0 <= i < slots.len() && slots[i].0 == k
}

/// The map that a sequence of slots stands for.
spec fn as_map<K, V>(slots: Seq<(K, V)>) -> Map<K, V> {
    Map::new(
        |k: K| exists|i: int| held_at(slots, k, i),
        |k: K| slots[choose|i: int| held_at(slots, k, i)].1,
    )
}

/// Whether no key stands in two slots.
spec fn keys_distinct<K, V>(slots: Seq<(K, V)>) -> bool {
    forall|i: int, j: int|
        0 <= i < slots.len() && 0 <= j < slots.len() && #[trigger] slots[i].0
            == #[trigger] slots[j].0 ==> i == j
}

/// With distinct keys, the record under the key of slot `i` is the one in slot `i`.
proof fn lemma_slot_is_entry<K, V>(slots: Seq<(K, V)>, i: int)
    requires
        keys_distinct(slots),
        0 <= i < slots.len(),
    ensures
        as_map(slots).contains_key(slots[i].0),
        as_map(slots)[slots[i].0] == slots[i].1,
{
    let k = slots[i].0;
    assert(held_at(slots, k, i));
    let c = choose|c: int| held_at(slots, k, c);
    assert(held_at(slots, k, c));
    assert(c == i);
}

/// A key that stands in no slot is not in the map.
proof fn lemma_absent<K, V>(slots: Seq<(K, V)>, k: K)
    requires
        forall|i: int| 0 <= i < slots.len() ==> (#[trigger] slots[i]).0 != k,
    ensures
        !as_map(slots).contains_key(k),
{
    assert forall|i: int| !held_at(slots, k, i) by {
        if 0 <= i < slots.len() {
            assert(slots[i].0 != k);
        }
    }
}

/// Adding a slot under a new key inserts into the map.
proof fn lemma_push<K, V>(slots: Seq<(K, V)>, k: K, v: V)
    requires
        keys_distinct(slots),
        !as_map(slots).contains_key(k),
    ensures
        keys_distinct(slots.push((k, v))),
        as_map(slots.push((k, v))) == as_map(slots).insert(k, v),
{
    let after = slots.push((k, v));
    let n = slots.len() as int;
    let got = as_map(after);
    let want = as_map(slots).insert(k, v);
    assert forall|i: int| 0 <= i < n implies (#[trigger] slots[i]).0 != k by {
        if slots[i].0 == k {
            assert(held_at(slots, k, i));
        }
    }
    assert(keys_distinct(after));
    assert forall|q: K| #[trigger] got.contains_key(q) <==> want.contains_key(q) by {
        if as_map(after).contains_key(q) {
            let i = choose|i: int| held_at(after, q, i);
            if i < n {
                assert(held_at(slots, q, i));
            }
        }
        if as_map(slots).contains_key(q) {
            let i = choose|i: int| held_at(slots, q, i);
            assert(held_at(after, q, i));
        }
        if q == k {
            assert(held_at(after, q, n));
        }
    }
    assert forall|q: K| got.contains_key(q) implies #[trigger] got[q] == want[q] by {
        let i = choose|i: int| held_at(after, q, i);
        lemma_slot_is_entry(after, i);
        if i < n {
            lemma_slot_is_entry(slots, i);
        }
    }
    assert(got =~= want);
}

/// Replacing the record of a slot, under the same key, updates the map.
proof fn lemma_update<K, V>(slots: Seq<(K, V)>, i: int, v: V)
    requires
        keys_distinct(slots),
        0 <= i < slots.len(),
    ensures
        keys_distinct(slots.update(i, (slots[i].0, v))),
        as_map(slots.update(i, (slots[i].0, v))) == as_map(slots).insert(slots[i].0, v),
{
    let k = slots[i].0;
    let after = slots.update(i, (k, v));
    let got = as_map(after);
    let want = as_map(slots).insert(k, v);
    assert forall|j: int| 0 <= j < slots.len() implies (#[trigger] after[j]).0 == slots[j].0 by {}
    assert(keys_distinct(after)) by {
        assert forall|a: int, b: int|
            0 <= a < after.len() && 0 <= b < after.len() && #[trigger] after[a].0
                == #[trigger] after[b].0 implies a == b by {
            assert(slots[a].0 == slots[b].0);
        }
    }
    assert forall|q: K| #[trigger] got.contains_key(q) <==> want.contains_key(q) by {
        if as_map(after).contains_key(q) {
            let j = choose|j: int| held_at(after, q, j);
            assert(held_at(slots, q, j));
        }
        if as_map(slots).contains_key(q) {
            let j = choose|j: int| held_at(slots, q, j);
            assert(held_at(after, q, j));
        }
        if q == k {
            assert(held_at(after, q, i));
        }
    }
    assert forall|q: K| got.contains_key(q) implies #[trigger] got[q] == want[q] by {
        let j = choose|j: int| held_at(after, q, j);
        lemma_slot_is_entry(after, j);
        if j != i {
            lemma_slot_is_entry(slots, j);
        }
    }
    assert(got =~= want);
}

/// Taking a slot out removes its key from the map.
proof fn lemma_remove<K, V>(slots: Seq<(K, V)>, i: int)
    requires
        keys_distinct(slots),
        0 <= i < slots.len(),
    ensures
        keys_distinct(slots.remove(i)),
        as_map(slots.remove(i)) == as_map(slots).remove(slots[i].0),
{
    let k = slots[i].0;
    let after = slots.remove(i);
    let got = as_map(after);
    let want = as_map(slots).remove(k);
    assert forall|j: int| 0 <= j < after.len() implies #[trigger] after[j] == slots[if j < i {
        j
    } else {
        j + 1
    }] by {}
    assert(keys_distinct(after)) by {
        assert forall|a: int, b: int|
            0 <= a < after.len() && 0 <= b < after.len() && #[trigger] after[a].0
                == #[trigger] after[b].0 implies a == b by {
            let a0 = if a < i { a } else { a + 1 };
            let b0 = if b < i { b } else { b + 1 };
            assert(slots[a0].0 == slots[b0].0);
        }
    }
    assert forall|q: K| #[trigger] got.contains_key(q) <==> want.contains_key(q) by {
        if as_map(after).contains_key(q) {
            let j = choose|j: int| held_at(after, q, j);
            let j0 = if j < i { j } else { j + 1 };
            assert(held_at(slots, q, j0));
            assert(slots[j0].0 == q);
            if q == k {
                assert(slots[j0].0 == slots[i].0);
            }
        }
        if want.contains_key(q) {
            let j = choose|j: int| held_at(slots, q, j);
            assert(j != i);
            let j1 = if j < i { j } else { j - 1 };
            assert(held_at(after, q, j1));
        }
    }
    assert forall|q: K| got.contains_key(q) implies #[trigger] got[q] == want[q] by {
        let j = choose|j: int| held_at(after, q, j);
        lemma_slot_is_entry(after, j);
        lemma_slot_is_entry(slots, if j < i { j } else { j + 1 });
    }
    assert(got =~= want);
}

impl<K, V> KeyedStore<K, V> {
    #[verifier::type_invariant]
    spec fn distinct(self) -> bool {
        keys_distinct(self.slots@)
    }

    /// The map from keys to records that the store holds.
    pub closed spec fn view(&self) -> Map<K, V> {
        as_map(self.slots@)
    }
}

impl<K: Key, V> KeyedStore<K, V> {

    /// An empty store.
    pub fn new() -> (s: Self)
        ensures
            s@ == Map::<K, V>::empty(),
    {
        let s = KeyedStore { slots: Vec::new() };
        assert(s@ =~= Map::<K, V>::empty()) by {
            assert forall|k: K| !as_map(s.slots@).contains_key(k) by {
                lemma_absent(s.slots@, k);
            }
        }
        s
    }

    /// The slot that holds `key`, if any does.
    fn position(&self, key: &K) -> (r: Option<usize>)
        ensures
            match r {
                Some(i) => i < self.slots@.len() && self.slots@[i as int].0 == *key,
                None => !self@.contains_key(*key),
            },
    {
        let mut i: usize = 0;
        while i < self.slots.len()
            invariant
                i <= self.slots@.len(),
                forall|j: int| 0 <= j < i ==> (#[trigger] self.slots@[j]).0 != *key,
            decreases self.slots@.len() - i,
        {
            if self.slots[i].0.same(key) {
                return Some(i);
            }
            i += 1;
        }
        proof {
            lemma_absent(self.slots@, *key);
        }
        None
    }

    /// Whether a record is stored under `key`.
    pub fn contains_key(&self, key: &K) -> (r: bool)
        ensures
            r == self@.contains_key(*key),
    {
        proof {
            use_type_invariant(self);
        }
        match self.position(key) {
            Some(i) => {
                proof {
                    lemma_slot_is_entry(self.slots@, i as int);
                }
                true
            },
            None => false,
        }
    }

    /// The record stored under `key`, if there is one.
    pub fn get(&self, key: &K) -> (r: Option<&V>)
        ensures
            r == (if self@.contains_key(*key) {
                Some(&self@[*key])
            } else {
                None
            }),
    {
        proof {
            use_type_invariant(self);
        }
        match self.position(key) {
            Some(i) => {
                proof {
                    lemma_slot_is_entry(self.slots@, i as int);
                }
                Some(&self.slots[i].1)
            },
            None => None,
        }
    }

    /// Stores `value` under `key`, in place of what was stored there.
    pub fn insert(&mut self, key: K, value: V)
        ensures
            final(self)@ == old(self)@.insert(key, value),
    {
        proof {
            use_type_invariant(&*self);
        }
        let found = self.position(&key);
        let mut slots: Vec<(K, V)> = Vec::new();
        std::mem::swap(&mut slots, &mut self.slots);
        match found {
            Some(i) => {
                proof {
                    lemma_update(slots@, i as int, value);
                }
                slots.set(i, (key, value));
            },
            None => {
                proof {
                    lemma_push(slots@, key, value);
                }
                slots.push((key, value));
            },
        }
        self.slots = slots;
    }

    /// Takes out the record stored under `key` and returns it, if there is one.
    pub fn remove(&mut self, key: &K) -> (r: Option<V>)
        ensures
            final(self)@ == old(self)@.remove(*key),
            r == (if old(self)@.contains_key(*key) {
                Some(old(self)@[*key])
            } else {
                None
            }),
    {
        proof {
            use_type_invariant(&*self);
        }
        match self.position(key) {
            Some(i) => {
                let mut slots: Vec<(K, V)> = Vec::new();
                std::mem::swap(&mut slots, &mut self.slots);
                proof {
                    lemma_slot_is_entry(slots@, i as int);
                    lemma_remove(slots@, i as int);
                }
                let taken = slots.remove(i);
                self.slots = slots;
                Some(taken.1)
            },
            None => {
                assert(self@ =~= old(self)@.remove(*key));
                None
            },
        }
    }

    /// Stores `record` under `key`, unless a record is already stored there.
    pub fn create(&mut self, key: K, record: V) -> (r: Result<(), StoreError>)
        ensures
            old(self)@.contains_key(key) ==> r == Err::<(), StoreError>(StoreError::AlreadyExists)
                && final(self)@ == old(self)@,
            !old(self)@.contains_key(key) ==> r == Ok::<(), StoreError>(())
                && final(self)@ == old(self)@.insert(key, record),
    {
        if self.contains_key(&key) {
            return Err(StoreError::AlreadyExists);
        }
        self.insert(key, record);
        Ok(())
    }

    /// The record stored under `key`.
    pub fn read(&self, key: &K) -> (r: Result<&V, StoreError>)
        ensures
            r == (if self@.contains_key(*key) {
                Ok::<&V, StoreError>(&self@[*key])
            } else {
                Err::<&V, StoreError>(StoreError::NotFound)
            }),
    {
        match self.get(key) {
            Some(record) => Ok(record),
            None => Err(StoreError::NotFound),
        }
    }

    /// Replaces the record stored under `key`, if there is one.
    pub fn update(&mut self, key: K, record: V) -> (r: Result<(), StoreError>)
        ensures
            old(self)@.contains_key(key) ==> r == Ok::<(), StoreError>(())
                && final(self)@ == old(self)@.insert(key, record),
            !old(self)@.contains_key(key) ==> r == Err::<(), StoreError>(StoreError::NotFound)
                && final(self)@ == old(self)@,
    {
        if !self.contains_key(&key) {
            return Err(StoreError::NotFound);
        }
        self.insert(key, record);
        Ok(())
    }

    /// Removes the record stored under `key`, if there is one, and returns it.
    pub fn delete(&mut self, key: &K) -> (r: Result<V, StoreError>)
        ensures
            old(self)@.contains_key(*key) ==> r == Ok::<V, StoreError>(old(self)@[*key])
                && final(self)@ == old(self)@.remove(*key),
            !old(self)@.contains_key(*key) ==> r == Err::<V, StoreError>(StoreError::NotFound)
                && final(self)@ == old(self)@,
    {
        match self.remove(key) {
            Some(record) => Ok(record),
            None => {
                assert(self@ =~= old(self)@);
                Err(StoreError::NotFound)
            },
        }
    }
}

} // verus!
