//! A small key-value table, kept as a list of entries.

use vstd::prelude::*;
use crate::address::Address;
use crate::uint::U256;

verus! {

/// A key of a [`Table`]: a value that can be told apart from another.
pub trait Key: Copy {
    /// Whether two keys are the same.
    fn same(&self, other: &Self) -> (r: bool)
        ensures
            r == (*self == *other),
    ;
}

impl Key for Address {
    fn same(&self, other: &Self) -> (r: bool) {
        *self == *other
    }
}

impl Key for U256 {
    fn same(&self, other: &Self) -> (r: bool) {
        *self == *other
    }
}

/// A finite map from keys to values. Its view is the map it stands for.
///
/// A key is stored once: storing under it again replaces the entry.
pub struct Table<K, V> {
    entries: Vec<(K, V)>,
}

/// The map that a list of entries stands for: a later entry wins over an
/// earlier one with the same key.
pub open spec fn map_of<K, V>(entries: Seq<(K, V)>) -> Map<K, V>
    decreases entries.len(),
{
    if entries.len() == 0 {
        Map::empty()
    } else {
        map_of(entries.drop_last()).insert(entries.last().0, entries.last().1)
    }
}

/// `i` is the last place in `entries` that holds the key `k`.
spec fn last_place<K, V>(entries: Seq<(K, V)>, k: K, i: int) -> bool {
    &&& 0 <= i < entries.len()
    &&& entries[i].0 == k
    &&& forall|j: int| i < j < entries.len() ==> entries[j].0 != k
}

proof fn lemma_absent<K, V>(entries: Seq<(K, V)>, k: K)
    requires
        forall|j: int| 0 <= j < entries.len() ==> entries[j].0 != k,
    ensures
        !map_of(entries).contains_key(k),
    decreases entries.len(),
{
    if entries.len() > 0 {
        lemma_absent(entries.drop_last(), k);
    }
}

proof fn lemma_present<K, V>(entries: Seq<(K, V)>, k: K, i: int)
    requires
        last_place(entries, k, i),
    ensures
        map_of(entries).contains_key(k),
        map_of(entries)[k] == entries[i].1,
    decreases entries.len(),
{
    if i < entries.len() - 1 {
        lemma_present(entries.drop_last(), k, i);
    }
}

proof fn lemma_replace<K, V>(entries: Seq<(K, V)>, k: K, i: int, v: V)
    requires
        last_place(entries, k, i),
    ensures
        map_of(entries.update(i, (k, v))) == map_of(entries).insert(k, v),
    decreases entries.len(),
{
    let after = entries.update(i, (k, v));
    if i < entries.len() - 1 {
        lemma_replace(entries.drop_last(), k, i, v);
        assert(after.drop_last() == entries.drop_last().update(i, (k, v)));
    } else {
        assert(after.drop_last() == entries.drop_last());
    }
    assert(map_of(after) =~= map_of(entries).insert(k, v));
}

impl<K: Key, V: Copy> View for Table<K, V> {
    type V = Map<K, V>;

    closed spec fn view(&self) -> Map<K, V> {
        map_of(self.entries@)
    }
}

impl<K: Key, V: Copy> Table<K, V> {
    /// The empty table.
    pub fn new() -> (t: Self)
        ensures
            t@ == Map::<K, V>::empty(),
    {
        Table { entries: Vec::new() }
    }

    /// The table that a list of entries stands for.
    pub fn from_entries(entries: Vec<(K, V)>) -> (t: Self)
        ensures
            t@ == map_of(entries@),
    {
        Table { entries }
    }

    /// A list of entries that stands for the table.
    pub fn into_entries(self) -> (entries: Vec<(K, V)>)
        ensures
            map_of(entries@) == self@,
    {
        self.entries
    }

    /// The last place that holds `k`, if any does.
    fn position(&self, k: &K) -> (r: Option<usize>)
        ensures
            match r {
                Some(i) => last_place(self.entries@, *k, i as int),
                None => forall|j: int| 0 <= j < self.entries@.len() ==> self.entries@[j].0 != *k,
            },
    {
        let mut i: usize = self.entries.len();
        while i > 0
            invariant
                i <= self.entries@.len(),
                forall|j: int| i <= j < self.entries@.len() ==> self.entries@[j].0 != *k,
            decreases i,
        {
            i -= 1;
            if self.entries[i].0.same(k) {
                return Some(i);
            }
        }
        None
    }

    /// The value stored under `k`, if there is one.
    pub fn get(&self, k: &K) -> (r: Option<V>)
        ensures
            r == if self@.contains_key(*k) {
                Some(self@[*k])
            } else {
                None
            },
    {
        match self.position(k) {
            Some(i) => {
                proof {
                    lemma_present(self.entries@, *k, i as int);
                }
                Some(self.entries[i].1)
            },
            None => {
                proof {
                    lemma_absent(self.entries@, *k);
                }
                None
            },
        }
    }

    /// Stores `v` under `k`, in place of what was there.
    pub fn insert(&mut self, k: K, v: V)
        ensures
            final(self)@ == old(self)@.insert(k, v),
    {
        match self.position(&k) {
            Some(i) => {
                proof {
                    lemma_replace(self.entries@, k, i as int, v);
                }
                self.entries[i] = (k, v);
            },
            None => {
                self.entries.push((k, v));
                assert(self.entries@.drop_last() == old(self).entries@);
            },
        }
    }
}

} // verus!
