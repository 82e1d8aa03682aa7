//! A small keyed store: what a contract keeps under one kind of storage key.

use vstd::prelude::*;

use crate::address::Address;

verus! {

/// A storage key: a value that can be told apart from any other of its type.
pub trait Key: Copy {
    /// Whether the two keys are the same.
    fn same(&self, other: &Self) -> (r: bool)
        ensures
            r == (*self == *other),
    ;
}

impl Key for Address {
    fn same(&self, other: &Self) -> (r: bool) {
        *self == *other
    }
}

impl Key for u128 {
    fn same(&self, other: &Self) -> (r: bool) {
        *self == *other
    }
}

/// What a list of entries stores: under each key, the value of its last entry.
pub open spec fn stored<K, V>(entries: Seq<(K, V)>) -> Map<K, V>
    decreases entries.len(),
{
    if entries.len() == 0 {
        Map::empty()
    } else {
        stored(entries.drop_last()).insert(entries.last().0, entries.last().1)
    }
}

/// Values stored under keys.
pub struct Table<K, V> {
    entries: Vec<(K, V)>,
}

impl<K, V> View for Table<K, V> {
    type V = Map<K, V>;

    closed spec fn view(&self) -> Map<K, V> {
        stored(self.entries@)
    }
}

/// A key is stored exactly when an entry has it.
proof fn lemma_stored_domain<K, V>(entries: Seq<(K, V)>, key: K)
    ensures
        stored(entries).contains_key(key) <==> exists|i: int|
            0 <= i < entries.len() && (#[trigger] entries[i]).0 == key,
    decreases entries.len(),
{
    if entries.len() > 0 {
        let rest = entries.drop_last();
        lemma_stored_domain(rest, key);
        if stored(rest).contains_key(key) {
            let i = choose|i: int| 0 <= i < rest.len() && (#[trigger] rest[i]).0 == key;
            assert(entries[i] == rest[i]);
        }
        if exists|i: int| 0 <= i < entries.len() && (#[trigger] entries[i]).0 == key {
            let i = choose|i: int| 0 <= i < entries.len() && (#[trigger] entries[i]).0 == key;
            if i < rest.len() {
                assert(rest[i] == entries[i]);
            }
        }
        if entries.last().0 == key {
            assert(entries[entries.len() - 1].0 == key);
        }
    }
}

/// The last entry of a key holds its stored value.
proof fn lemma_stored_last<K, V>(entries: Seq<(K, V)>, at: int)
    requires
        0 <= at < entries.len(),
        forall|j: int| at < j < entries.len() ==> (#[trigger] entries[j]).0 != entries[at].0,
    ensures
        stored(entries).contains_key(entries[at].0),
        stored(entries)[entries[at].0] == entries[at].1,
    decreases entries.len(),
{
    if at < entries.len() - 1 {
        let rest = entries.drop_last();
        assert(rest[at] == entries[at]);
        assert forall|j: int| at < j < rest.len() implies (#[trigger] rest[j]).0 != rest[at].0 by {
            assert(rest[j] == entries[j]);
        }
        lemma_stored_last(rest, at);
        assert(entries[entries.len() - 1].0 != entries[at].0);
    }
}

/// Dropping one entry of a key leaves what is stored under the other keys.
proof fn lemma_stored_remove<K, V>(entries: Seq<(K, V)>, at: int)
    requires
        0 <= at < entries.len(),
    ensures
        stored(entries.remove(at)).remove(entries[at].0) == stored(entries).remove(entries[at].0),
    decreases entries.len(),
{
    let key = entries[at].0;
    if at == entries.len() - 1 {
        assert(entries.remove(at) =~= entries.drop_last());
    } else {
        let rest = entries.drop_last();
        lemma_stored_remove(rest, at);
        assert(entries.remove(at).drop_last() =~= rest.remove(at));
        assert(entries.remove(at).last() == entries.last());
        assert(rest[at] == entries[at]);
        let l = entries.last();
        let a = stored(rest.remove(at));
        let b = stored(rest);
        assert(a.insert(l.0, l.1).remove(key) =~= b.insert(l.0, l.1).remove(key)) by {
            assert forall|k: K| a.remove(key).contains_key(k) == b.remove(key).contains_key(k) by {}
            assert forall|k: K| #[trigger]
                a.insert(l.0, l.1).remove(key).contains_key(k) implies a.insert(l.0, l.1).remove(
                key,
            )[k] == b.insert(l.0, l.1).remove(key)[k] by {
                if k != l.0 {
                    assert(a.remove(key)[k] == b.remove(key)[k]);
                }
            }
            assert forall|k: K|
                a.insert(l.0, l.1).remove(key).contains_key(k) == b.insert(l.0, l.1).remove(
                    key,
                ).contains_key(k) by {
                assert(a.remove(key).contains_key(k) == b.remove(key).contains_key(k));
            }
        }
    }
}

impl<K: Key, V> Table<K, V> {
    /// A table that stores nothing.
    pub fn new() -> (table: Self)
        ensures
            table@ == Map::<K, V>::empty(),
    {
        Table { entries: Vec::new() }
    }

    /// The value stored under `key`, if any.
    pub fn get(&self, key: &K) -> (value: Option<&V>)
        ensures
            value == (if self@.contains_key(*key) {
                Some(&self@[*key])
            } else {
                None
            }),
    {
        let mut i: usize = self.entries.len();
        while i > 0
            invariant
                i <= self.entries@.len(),
                forall|j: int|
                    i <= j < self.entries@.len() ==> (#[trigger] self.entries@[j]).0 != *key,
            decreases i,
        {
            i = i - 1;
            if self.entries[i].0.same(key) {
                proof {
                    lemma_stored_last(self.entries@, i as int);
                }
                return Some(&self.entries[i].1);
            }
        }
        proof {
            lemma_stored_domain(self.entries@, *key);
        }
        None
    }

    /// Whether anything is stored under `key`.
    pub fn has(&self, key: &K) -> (found: bool)
        ensures
            found == self@.contains_key(*key),
    {
        self.get(key).is_some()
    }

    /// Removes what is stored under `key`, if anything is.
    pub fn remove(&mut self, key: &K)
        ensures
            final(self)@ == old(self)@.remove(*key),
    {
        let ghost before = self@;
        let mut i: usize = 0;
        while i < self.entries.len()
            invariant
                i <= self.entries@.len(),
                before == old(self)@,
                self@.remove(*key) == before.remove(*key),
                forall|j: int| 0 <= j < i ==> (#[trigger] self.entries@[j]).0 != *key,
            decreases self.entries@.len() - i,
        {
            if self.entries[i].0.same(key) {
                proof {
                    lemma_stored_remove(self.entries@, i as int);
                }
                let _ = self.entries.remove(i);
            } else {
                i = i + 1;
            }
        }
        proof {
            lemma_stored_domain(self.entries@, *key);
            assert(self@.remove(*key) =~= self@);
        }
    }

    /// Stores `value` under `key`, in place of what was there.
    pub fn set(&mut self, key: K, value: V)
        ensures
            final(self)@ == old(self)@.insert(key, value),
    {
        self.remove(&key);
        let ghost kept = self.entries@;
        self.entries.push((key, value));
        proof {
            assert(self.entries@.drop_last() =~= kept);
            assert(self@ =~= old(self)@.insert(key, value));
        }
    }
}

} // verus!
