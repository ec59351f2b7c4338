//! A small map from identifiers to values.
//!
//! Identifiers are 32-byte values, or pairs of them, which no integer can
//! hold; the entries are therefore kept in a vector in which no identifier
//! occurs twice, and a lookup walks it. The map that the entries stand for is
//! `registry@`.

use crate::address::same_bytes32;
use vstd::prelude::*;

verus! {

/// What a registry can be keyed by: a value with a mathematical model, and a
/// test that decides whether two keys have the same model.
pub trait RegistryKey: Sized {
    /// What the key stands for in contracts.
    type Model;

    /// The model of this key.
    spec fn model(&self) -> Self::Model;

    /// Whether the two keys stand for the same thing.
    fn same_key(&self, other: &Self) -> (same: bool)
        ensures
            same == (self.model() == other.model()),
    ;
}

impl RegistryKey for [u8; 32] {
    type Model = Seq<u8>;

    open spec fn model(&self) -> Seq<u8> {
        self@
    }

    fn same_key(&self, other: &Self) -> (same: bool) {
        same_bytes32(self, other)
    }
}

impl RegistryKey for ([u8; 32], [u8; 32]) {
    type Model = (Seq<u8>, Seq<u8>);

    open spec fn model(&self) -> (Seq<u8>, Seq<u8>) {
        (self.0@, self.1@)
    }

    fn same_key(&self, other: &Self) -> (same: bool) {
        same_bytes32(&self.0, &other.0) && same_bytes32(&self.1, &other.1)
    }
}

/// One entry of a registry.
pub struct Entry<K, V> {
    pub key: K,
    pub value: V,
}

/// A map from keys to values, held as a list of entries with distinct keys.
pub struct Registry<K: RegistryKey, V> {
    entries: Vec<Entry<K, V>>,
}

impl<K: RegistryKey, V> Registry<K, V> {
    /// No key occurs in two entries.
    #[verifier::type_invariant]
    spec fn distinct_keys(self) -> bool {
        forall|i: int, j: int|
            0 <= i < j < self.entries@.len() ==> self.entries@[i].key.model()
                != self.entries@[j].key.model()
    }

    /// Whether entry `i` exists and holds the key `k`.
    spec fn holds_at(self, i: int, k: K::Model) -> bool {
        0 <= i < self.entries@.len() && self.entries@[i].key.model() == k
    }

    /// The map that the entries stand for.
    pub closed spec fn view(&self) -> Map<K::Model, V> {
        Map::new(
            |k: K::Model| exists|i: int| self.holds_at(i, k),
            |k: K::Model| self.entries@[choose|i: int| self.holds_at(i, k)].value,
        )
    }

    /// The empty registry.
    pub fn new() -> (registry: Self)
        ensures
            registry@ == Map::<K::Model, V>::empty(),
    {
        let registry = Registry { entries: Vec::new() };
        assert(registry@ =~= Map::<K::Model, V>::empty());
        registry
    }

    /// The position of `key` among the entries, if it has one.
    fn position(&self, key: &K) -> (found: Option<usize>)
        ensures
            match found {
                Some(i) => self.holds_at(i as int, key.model()),
                None => forall|i: int| !self.holds_at(i, key.model()),
            },
    {
        let mut i: usize = 0;
        while i < self.entries.len()
            invariant
                i <= self.entries@.len(),
                forall|j: int| 0 <= j < i ==> self.entries@[j].key.model() != key.model(),
            decreases self.entries@.len() - i,
        {
            if self.entries[i].key.same_key(key) {
                return Some(i);
            }
            i = i + 1;
        }
        None
    }

    /// The value stored under `key`, if there is one.
    pub fn get(&self, key: &K) -> (value: Option<&V>)
        ensures
            match value {
                Some(v) => self@.contains_key(key.model()) && *v == self@[key.model()],
                None => !self@.contains_key(key.model()),
            },
    {
        proof {
            use_type_invariant(self);
        }
        match self.position(key) {
            Some(i) => {
                proof {
                    let k = key.model();
                    let c = choose|j: int| self.holds_at(j, k);
                    assert(self.holds_at(i as int, k));
                    assert(c == i);
                }
                Some(&self.entries[i].value)
            },
            None => None,
        }
    }

    /// Stores `value` under `key`, in place of what was stored there.
    pub fn insert(&mut self, key: K, value: V)
        ensures
            final(self)@ == old(self)@.insert(key.model(), value),
    {
        proof {
            use_type_invariant(&*self);
        }
        let ghost before = *self;
        let ghost k = key.model();
        let found = self.position(&key);
        // Where the entry goes: over the entry with this key, or behind the last.
        let ghost at: int = match found {
            Some(i) => i as int,
            None => before.entries@.len() as int,
        };
        let mut entries = Vec::new();
        core::mem::swap(&mut self.entries, &mut entries);
        match found {
            Some(i) => {
                entries.set(i, Entry { key, value });
            },
            None => {
                entries.push(Entry { key, value });
            },
        }
        assert forall|i: int, j: int| 0 <= i < j < entries@.len() implies entries@[i].key.model()
            != entries@[j].key.model() by {
            if i != at && j != at {
                assert(before.entries@[i].key.model() != before.entries@[j].key.model());
            } else if i == at {
                assert(!before.holds_at(j, k) || j == at);
            } else {
                assert(!before.holds_at(i, k) || i == at);
            }
        }
        self.entries = entries;
        proof {
            let after = *self;
            assert(after.holds_at(at, k));
            // Every other key sits where it sat.
            assert forall|i: int, m: K::Model| m != k implies (before.holds_at(i, m)
                == after.holds_at(i, m)) by {}
            assert forall|m: K::Model| #[trigger]
                after@.contains_key(m) == before@.insert(k, value).contains_key(m) by {
                if m != k {
                    if before@.contains_key(m) {
                        let i = choose|i: int| before.holds_at(i, m);
                        assert(after.holds_at(i, m));
                    }
                    if after@.contains_key(m) {
                        let i = choose|i: int| after.holds_at(i, m);
                        assert(before.holds_at(i, m));
                    }
                }
            }
            assert forall|m: K::Model| after@.contains_key(m) implies #[trigger] after@[m]
                == before@.insert(k, value)[m] by {
                let c = choose|i: int| after.holds_at(i, m);
                if m == k {
                    assert(c == at);
                } else {
                    assert(before.holds_at(c, m));
                    let b = choose|i: int| before.holds_at(i, m);
                    assert(b == c);
                }
            }
            assert(after@ =~= before@.insert(k, value));
        }
    }
}

} // verus!
