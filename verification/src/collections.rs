//! A map and a set over keys that are compared by a verified equality. Both
//! keep their entries in insertion order and hold no key twice.

use crate::primitives::{Address, U256};
use vstd::prelude::*;

verus! {

/// A key type whose executable equality is the equality of specifications.
pub trait Key: Sized {
    fn key_eq(&self, other: &Self) -> (r: bool)
        ensures
            r == (*self == *other),
    ;
}

impl Key for Address {
    fn key_eq(&self, other: &Self) -> (r: bool) {
        self.same(other)
    }
}

impl Key for U256 {
    fn key_eq(&self, other: &Self) -> (r: bool) {
        *self == *other
    }
}

impl Key for (Address, U256) {
    fn key_eq(&self, other: &Self) -> (r: bool) {
        self.0.same(&other.0) && self.1 == other.1
    }
}

/// The place of `key` in `keys`, where it occurs.
pub open spec fn index_of<K>(keys: Seq<K>, key: K) -> int {
    choose|i: int| 0 <= i < keys.len() && keys[i] == key
}

/// A finite map from `K` to `V`.
pub struct AssocMap<K, V> {
    keys: Vec<K>,
    values: Vec<V>,
}

impl<K, V> View for AssocMap<K, V> {
    type V = Map<K, V>;

    closed spec fn view(&self) -> Map<K, V> {
        Map::new(
            |k: K| self.keys@.contains(k),
            |k: K| self.values@[index_of(self.keys@, k)],
        )
    }
}

impl<K: Key, V> AssocMap<K, V> {
    /// Every key has one value and occurs once.
    pub closed spec fn wf(&self) -> bool {
        &&& self.keys@.len() == self.values@.len()
        &&& self.keys@.no_duplicates()
    }

    proof fn lemma_entry(&self, i: int)
        requires
            self.wf(),
            0 <= i < self.keys@.len(),
        ensures
            self@.contains_key(self.keys@[i]),
            self@[self.keys@[i]] == self.values@[i],
    {
        let k = self.keys@[i];
        assert(self.keys@.contains(k));
        assert(index_of(self.keys@, k) == i);
    }

    /// How many entries the map holds.
    pub closed spec fn entry_count(&self) -> nat {
        self.keys@.len()
    }

    /// The key of the `i`-th entry, in the order of insertion.
    pub closed spec fn key_at(&self, i: int) -> K {
        self.keys@[i]
    }

    /// Every key of the map is the key of one of its entries.
    pub proof fn lemma_key_has_entry(&self, key: K)
        requires
            self.wf(),
            self@.contains_key(key),
        ensures
            exists|i: int| 0 <= i < self.entry_count() && #[trigger] self.key_at(i) == key,
    {
        let i = index_of(self.keys@, key);
        assert(self.key_at(i) == key);
    }

    /// Whether the map is well formed: as many values as keys, and no key twice.
    pub fn is_well_formed(&self) -> (r: bool)
        ensures
            r == self.wf(),
    {
        if self.keys.len() != self.values.len() {
            return false;
        }
        let mut i: usize = 0;
        while i < self.keys.len()
            invariant
                i <= self.keys@.len(),
                forall|a: int, b: int| 0 <= a < b < i ==> self.keys@[a] != self.keys@[b],
            decreases self.keys@.len() - i,
        {
            let mut j: usize = 0;
            while j < i
                invariant
                    j <= i < self.keys@.len(),
                    forall|a: int| 0 <= a < j ==> self.keys@[a] != self.keys@[i as int],
                decreases i - j,
            {
                if self.keys[j].key_eq(&self.keys[i]) {
                    assert(!self.keys@.no_duplicates());
                    return false;
                }
                j += 1;
            }
            i += 1;
        }
        assert(self.keys@.no_duplicates());
        true
    }

    /// How many entries the map holds.
    pub fn len(&self) -> (r: usize)
        ensures
            r == self.entry_count(),
    {
        self.keys.len()
    }

    /// The `i`-th entry, in the order of insertion.
    pub fn entry(&self, i: usize) -> (r: (&K, &V))
        requires
            self.wf(),
            i < self.entry_count(),
        ensures
            *r.0 == self.key_at(i as int),
            self@.contains_key(*r.0),
            *r.1 == self@[*r.0],
    {
        proof {
            self.lemma_entry(i as int);
        }
        (&self.keys[i], &self.values[i])
    }

    pub fn new() -> (r: Self)
        ensures
            r.wf(),
            r@ == Map::<K, V>::empty(),
    {
        let r = AssocMap { keys: Vec::new(), values: Vec::new() };
        assert(r@ =~= Map::<K, V>::empty());
        r
    }

    fn position(&self, key: &K) -> (r: Option<usize>)
        requires
            self.wf(),
        ensures
            match r {
                Some(i) => i < self.keys@.len() && self.keys@[i as int] == *key,
                None => !self.keys@.contains(*key),
            },
    {
        let mut i: usize = 0;
        while i < self.keys.len()
            invariant
                i <= self.keys@.len(),
                forall|j: int| 0 <= j < i ==> self.keys@[j] != *key,
            decreases self.keys@.len() - i,
        {
            if self.keys[i].key_eq(key) {
                return Some(i);
            }
            i += 1;
        }
        None
    }

    pub fn contains_key(&self, key: &K) -> (r: bool)
        requires
            self.wf(),
        ensures
            r == self@.contains_key(*key),
    {
        self.position(key).is_some()
    }

    /// The value under `key`, where the map has one.
    pub fn get(&self, key: &K) -> (r: Option<&V>)
        requires
            self.wf(),
        ensures
            match r {
                Some(v) => self@.contains_key(*key) && *v == self@[*key],
                None => !self@.contains_key(*key),
            },
    {
        match self.position(key) {
            Some(i) => {
                proof {
                    self.lemma_entry(i as int);
                }
                Some(&self.values[i])
            },
            None => None,
        }
    }

    /// A handle on the value under `key`, where the map has one. What is
    /// written through the handle is the key's value afterwards; no other
    /// entry changes.
    pub fn get_mut(&mut self, key: &K) -> (r: Option<&mut V>)
        requires
            old(self).wf(),
        ensures
            r is Some == old(self)@.contains_key(*key),
            match r {
                Some(v) => *v == old(self)@[*key]
                    && final(self).wf()
                    && final(self)@ == old(self)@.insert(*key, *final(v)),
                None => *final(self) == *old(self),
            },
    {
        match self.position(key) {
            Some(i) => {
                proof {
                    self.lemma_entry(i as int);
                }
                Some(&mut self.values[i])
            },
            None => None,
        }
    }

    /// Puts `value` under `key`, in place of what was there.
    pub fn insert(&mut self, key: K, value: V)
        requires
            old(self).wf(),
        ensures
            final(self).wf(),
            final(self)@ == old(self)@.insert(key, value),
    {
        match self.position(&key) {
            Some(i) => {
                self.values[i] = value;
                proof {
                    assert forall|k: K| self@.contains_key(k) implies #[trigger] self@[k] == old(self)@.insert(key, value)[k] by {
                        let j = index_of(self.keys@, k);
                        self.lemma_entry(j);
                        old(self).lemma_entry(j);
                    }
                    assert(self@ =~= old(self)@.insert(key, value));
                }
            },
            None => {
                self.keys.push(key);
                self.values.push(value);
                proof {
                    assert forall|k: K| self@.contains_key(k) implies #[trigger] self@[k] == old(self)@.insert(key, value)[k] by {
                        let j = index_of(self.keys@, k);
                        self.lemma_entry(j);
                        if j < old(self).keys@.len() {
                            old(self).lemma_entry(j);
                        }
                    }
                    assert forall|k: K| old(self)@.insert(key, value).contains_key(
                        k,
                    ) implies self@.contains_key(k) by {
                        if k != key {
                            let j = index_of(old(self).keys@, k);
                            assert(self.keys@[j] == k);
                        } else {
                            assert(self.keys@[old(self).keys@.len() as int] == key);
                        }
                    }
                    assert(self@ =~= old(self)@.insert(key, value));
                }
            },
        }
    }
}

impl<K: Key + Copy, V: Copy> Clone for AssocMap<K, V> {
    fn clone(&self) -> (r: Self)
        ensures
            self.wf() ==> r.wf() && r@ == self@,
    {
        let mut keys: Vec<K> = Vec::new();
        let mut values: Vec<V> = Vec::new();
        let mut i: usize = 0;
        while i < self.keys.len() && i < self.values.len()
            invariant
                i <= self.keys@.len(),
                i <= self.values@.len(),
                keys@ == self.keys@.subrange(0, i as int),
                values@ == self.values@.subrange(0, i as int),
            decreases self.keys@.len() - i,
        {
            keys.push(self.keys[i]);
            values.push(self.values[i]);
            i += 1;
        }
        proof {
            if self.wf() {
                assert(keys@ =~= self.keys@);
                assert(values@ =~= self.values@);
            }
        }
        AssocMap { keys, values }
    }
}

/// A finite set of `K`.
pub struct AssocSet<K> {
    items: Vec<K>,
}

impl<K> View for AssocSet<K> {
    type V = Set<K>;

    closed spec fn view(&self) -> Set<K> {
        self.items@.to_set()
    }
}

impl<K: Key> AssocSet<K> {
    pub fn new() -> (r: Self)
        ensures
            r@ == Set::<K>::empty(),
    {
        let r = AssocSet { items: Vec::new() };
        assert(r@ =~= Set::<K>::empty());
        r
    }

    pub fn contains(&self, key: &K) -> (r: bool)
        ensures
            r == self@.contains(*key),
    {
        let mut i: usize = 0;
        while i < self.items.len()
            invariant
                i <= self.items@.len(),
                forall|j: int| 0 <= j < i ==> self.items@[j] != *key,
            decreases self.items@.len() - i,
        {
            if self.items[i].key_eq(key) {
                return true;
            }
            i += 1;
        }
        false
    }

    /// Adds `key`; says whether it was new.
    pub fn insert(&mut self, key: K) -> (r: bool)
        ensures
            r == !old(self)@.contains(key),
            final(self)@ == old(self)@.insert(key),
    {
        if self.contains(&key) {
            assert(self@ =~= old(self)@.insert(key));
            false
        } else {
            self.items.push(key);
            assert(self@ =~= old(self)@.insert(key)) by {
                assert forall|k: K| old(self)@.insert(key).contains(k) implies self@.contains(
                    k,
                ) by {
                    if k != key {
                        let j = choose|j: int| 0 <= j < old(self).items@.len()
                            && old(self).items@[j] == k;
                        assert(self.items@[j] == k);
                    } else {
                        assert(self.items@[old(self).items@.len() as int] == key);
                    }
                }
            }
            true
        }
    }
}

} // verus!
