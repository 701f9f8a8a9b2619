//! A small map for keys that can only be compared for equality.
//!
//! The tables of a node are keyed by addresses and names. They are short
//! and read far more often than written, so a list that is searched from the
//! front serves them; what is proved is that it behaves as a map.

use crate::address::Address;
use crate::message::FlowControlId;
use vstd::prelude::*;

verus! {

/// A key: a value with a view by which two keys are the same or not.
pub trait Key: View + Sized {
    /// Whether the two keys are the same.
    fn same(&self, other: &Self) -> (res: bool)
        ensures
            res == (self@ == other@),
    ;

    /// A copy of the key.
    fn duplicate(&self) -> (res: Self)
        ensures
            res@ == self@,
    ;
}

impl Key for Address {
    fn same(&self, other: &Self) -> (res: bool) {
        self.equals(other)
    }

    fn duplicate(&self) -> (res: Self) {
        self.clone()
    }
}

impl Key for FlowControlId {
    fn same(&self, other: &Self) -> (res: bool) {
        self.equals(other)
    }

    fn duplicate(&self) -> (res: Self) {
        self.clone()
    }
}

impl Key for String {
    fn same(&self, other: &Self) -> (res: bool) {
        *self == *other
    }

    fn duplicate(&self) -> (res: Self) {
        self.clone()
    }
}

/// Whether `k` is the key of some entry.
pub open spec fn has_key<K: Key, V>(entries: Seq<(K, V)>, k: K::V) -> bool {
    exists|i: int| 0 <= i < entries.len() && (#[trigger] entries[i]).0@ == k
}

/// The position of an entry with key `k`.
pub open spec fn position_of<K: Key, V>(entries: Seq<(K, V)>, k: K::V) -> int {
    choose|i: int| 0 <= i < entries.len() && (#[trigger] entries[i]).0@ == k
}

/// Whether no key occurs twice.
pub open spec fn distinct_keys<K: Key, V>(entries: Seq<(K, V)>) -> bool {
    forall|i: int, j: int|
        0 <= i < j < entries.len() ==> (#[trigger] entries[i]).0@ != (#[trigger] entries[j]).0@
}

/// The map that a list of entries with distinct keys stands for.
pub open spec fn entries_map<K: Key, V>(entries: Seq<(K, V)>) -> Map<K::V, V> {
    Map::new(|k: K::V| has_key(entries, k), |k: K::V| entries[position_of(entries, k)].1)
}

/// A map from keys to values, kept as a list in which no key occurs twice.
#[derive(Debug)]
pub struct Table<K: Key, V> {
    entries: Vec<(K, V)>,
}

impl<K: Key, V> View for Table<K, V> {
    type V = Map<K::V, V>;

    closed spec fn view(&self) -> Map<K::V, V> {
        entries_map(self.entries@)
    }
}

impl<K: Key, V> Table<K, V> {
    /// No key occurs twice.
    pub closed spec fn wf(&self) -> bool {
        distinct_keys(self.entries@)
    }

    /// The entries in the order in which the table keeps them.
    pub closed spec fn entries(&self) -> Seq<(K, V)> {
        self.entries@
    }

    /// The entries are what the view says, each key once.
    pub proof fn entries_agree_with_view(&self)
        requires
            self.wf(),
        ensures
            distinct_keys(self.entries()),
            self@ == entries_map(self.entries()),
            self@.dom().finite(),
            self@.len() == self.entries().len(),
            forall|i: int|
                0 <= i < self.entries().len() ==> {
                    &&& self@.contains_key((#[trigger] self.entries()[i]).0@)
                    &&& self@[self.entries()[i].0@] == self.entries()[i].1
                },
    {
        lemma_entries_map_len(self.entries@);
        assert forall|i: int| 0 <= i < self.entries().len() implies {
            &&& self@.contains_key((#[trigger] self.entries()[i]).0@)
            &&& self@[self.entries()[i].0@] == self.entries()[i].1
        } by {
            lemma_entry_is_mapped(self.entries@, i);
        }
    }

    /// The empty table.
    pub fn new() -> (res: Self)
        ensures
            res.wf(),
            res@ == Map::<K::V, V>::empty(),
    {
        let res = Table { entries: Vec::new() };
        res
    }

    /// How many keys the table holds.
    pub fn len(&self) -> (res: usize)
        requires
            self.wf(),
        ensures
            res == self@.len(),
            self@.dom().finite(),
    {
        proof {
            lemma_entries_map_len(self.entries@);
        }
        self.entries.len()
    }

    /// Whether the table holds nothing.
    pub fn is_empty(&self) -> (res: bool)
        requires
            self.wf(),
        ensures
            res == (self@.len() == 0),
            self@.dom().finite(),
    {
        proof {
            lemma_entries_map_len(self.entries@);
        }
        self.entries.len() == 0
    }

    fn find(&self, key: &K) -> (res: Option<usize>)
        ensures
            match res {
                Some(i) => i < self.entries@.len() && self.entries@[i as int].0@ == key@,
                None => !has_key(self.entries@, key@),
            },
    {
        let mut i: usize = 0;
        while i < self.entries.len()
            invariant
                i <= self.entries.len(),
                forall|j: int| 0 <= j < i ==> (#[trigger] self.entries@[j]).0@ != key@,
            decreases self.entries.len() - i,
        {
            if self.entries[i].0.same(key) {
                return Some(i);
            }
            i = i + 1;
        }
        None
    }

    /// Whether the table holds `key`.
    pub fn contains_key(&self, key: &K) -> (res: bool)
        ensures
            res == self@.contains_key(key@),
    {
        self.find(key).is_some()
    }

    /// The value under `key`, if the table holds the key.
    pub fn get(&self, key: &K) -> (res: Option<&V>)
        requires
            self.wf(),
        ensures
            match res {
                Some(v) => self@.contains_key(key@) && *v == self@[key@],
                None => !self@.contains_key(key@),
            },
    {
        match self.find(key) {
            Some(i) => {
                proof {
                    lemma_entry_is_mapped(self.entries@, i as int);
                }
                Some(&self.entries[i].1)
            },
            None => None,
        }
    }

    /// Puts `value` under `key` and hands out what was there before.
    pub fn insert(&mut self, key: K, value: V) -> (res: Option<V>)
        requires
            old(self).wf(),
        ensures
            final(self).wf(),
            final(self)@ == old(self)@.insert(key@, value),
            match res {
                Some(v) => old(self)@.contains_key(key@) && v == old(self)@[key@],
                None => !old(self)@.contains_key(key@),
            },
    {
        let previous = self.remove(&key);
        let ghost without = self.entries@;
        self.entries.push((key, value));
        proof {
            assert(!entries_map(without).contains_key(key@));
            lemma_push_is_insert(without, key, value);
        }
        previous
    }

    /// Takes `key` out of the table and hands out its value. A key that the
    /// table does not hold leaves it as it is.
    pub fn remove(&mut self, key: &K) -> (res: Option<V>)
        requires
            old(self).wf(),
        ensures
            final(self).wf(),
            final(self)@ == old(self)@.remove(key@),
            match res {
                Some(v) => old(self)@.contains_key(key@) && v == old(self)@[key@],
                None => !old(self)@.contains_key(key@),
            },
    {
        match self.find(key) {
            Some(i) => {
                proof {
                    lemma_entry_is_mapped(self.entries@, i as int);
                    lemma_remove_is_remove(self.entries@, i as int);
                }
                let entry = self.entries.remove(i);
                Some(entry.1)
            },
            None => {
                None
            },
        }
    }

    /// The key at position `i` of the entries.
    pub fn key_at(&self, i: usize) -> (res: &K)
        requires
            i < self.entries().len(),
        ensures
            *res == self.entries()[i as int].0,
    {
        &self.entries[i].0
    }

    /// The value at position `i` of the entries.
    pub fn value_at(&self, i: usize) -> (res: &V)
        requires
            i < self.entries().len(),
        ensures
            *res == self.entries()[i as int].1,
    {
        &self.entries[i].1
    }

    /// How many entries there are.
    pub fn count(&self) -> (res: usize)
        ensures
            res == self.entries().len(),
    {
        self.entries.len()
    }
}

/// With distinct keys, the entry at `i` is what the map holds under its key.
pub proof fn lemma_entry_is_mapped<K: Key, V>(entries: Seq<(K, V)>, i: int)
    requires
        distinct_keys(entries),
        0 <= i < entries.len(),
    ensures
        entries_map(entries).contains_key(entries[i].0@),
        entries_map(entries)[entries[i].0@] == entries[i].1,
{
    let k = entries[i].0@;
    assert(has_key(entries, k));
    let p = position_of(entries, k);
    assert(0 <= p < entries.len() && entries[p].0@ == k);
    if p < i {
        assert(entries[p].0@ != entries[i].0@);
    } else if i < p {
        assert(entries[i].0@ != entries[p].0@);
    }
}

/// A new key at the end of the list is an insertion into the map.
pub proof fn lemma_push_is_insert<K: Key, V>(entries: Seq<(K, V)>, key: K, value: V)
    requires
        distinct_keys(entries),
        !has_key(entries, key@),
    ensures
        distinct_keys(entries.push((key, value))),
        entries_map(entries.push((key, value))) == entries_map(entries).insert(key@, value),
{
    let after = entries.push((key, value));
    assert forall|i: int, j: int| 0 <= i < j < after.len() implies (#[trigger] after[i]).0@ != (
    #[trigger] after[j]).0@ by {
        if j == entries.len() {
            assert(entries[i].0@ != key@);
        } else {
            assert(entries[i].0@ != entries[j].0@);
        }
    }
    assert forall|k: K::V| has_key(after, k) <==> (k == key@ || has_key(entries, k)) by {
        if has_key(after, k) {
            let p = position_of(after, k);
            if p < entries.len() {
                assert(entries[p].0@ == k);
            }
        }
        if k == key@ {
            assert(after[entries.len() as int].0@ == k);
        }
        if has_key(entries, k) {
            let p = position_of(entries, k);
            assert(after[p].0@ == k);
        }
    }
    assert forall|k: K::V| has_key(after, k) implies #[trigger] entries_map(after)[k]
        == entries_map(entries).insert(key@, value)[k] by {
        if k == key@ {
            lemma_entry_is_mapped(after, entries.len() as int);
        } else {
            let p = position_of(entries, k);
            lemma_entry_is_mapped(entries, p);
            assert(after[p] == entries[p]);
            lemma_entry_is_mapped(after, p);
        }
    }
    assert(entries_map(after) =~= entries_map(entries).insert(key@, value));
}

/// Taking an entry out of the list takes its key out of the map.
pub proof fn lemma_remove_is_remove<K: Key, V>(entries: Seq<(K, V)>, i: int)
    requires
        distinct_keys(entries),
        0 <= i < entries.len(),
    ensures
        distinct_keys(entries.remove(i)),
        entries_map(entries.remove(i)) == entries_map(entries).remove(entries[i].0@),
{
    let after = entries.remove(i);
    let key = entries[i].0@;
    assert forall|a: int, b: int| 0 <= a < b < after.len() implies (#[trigger] after[a]).0@ != (
    #[trigger] after[b]).0@ by {
        let a0 = if a < i { a } else { a + 1 };
        let b0 = if b < i { b } else { b + 1 };
        assert(after[a] == entries[a0]);
        assert(after[b] == entries[b0]);
        assert(entries[a0].0@ != entries[b0].0@);
    }
    assert forall|k: K::V| has_key(after, k) <==> (k != key && has_key(entries, k)) by {
        if has_key(after, k) {
            let p = position_of(after, k);
            let p0 = if p < i { p } else { p + 1 };
            assert(after[p] == entries[p0]);
            assert(entries[p0].0@ == k);
            if p0 < i {
                assert(entries[p0].0@ != entries[i].0@);
            } else {
                assert(entries[i].0@ != entries[p0].0@);
            }
        }
        if k != key && has_key(entries, k) {
            let p = position_of(entries, k);
            let q = if p < i { p } else { p - 1 };
            assert(after[q] == entries[p]);
            assert(after[q].0@ == k);
        }
    }
    assert forall|k: K::V| has_key(after, k) implies #[trigger] entries_map(after)[k]
        == entries_map(entries).remove(key)[k] by {
        let p = position_of(after, k);
        let p0 = if p < i { p } else { p + 1 };
        assert(after[p] == entries[p0]);
        lemma_entry_is_mapped(after, p);
        lemma_entry_is_mapped(entries, p0);
    }
    assert(entries_map(after) =~= entries_map(entries).remove(key));
}

/// A list with distinct keys stands for a finite map of the same size.
pub proof fn lemma_entries_map_len<K: Key, V>(entries: Seq<(K, V)>)
    requires
        distinct_keys(entries),
    ensures
        entries_map(entries).dom().finite(),
        entries_map(entries).len() == entries.len(),
    decreases entries.len(),
{
    if entries.len() == 0 {
        assert(entries_map(entries) =~= Map::<K::V, V>::empty());
    } else {
        let last = entries.last();
        let rest = entries.drop_last();
        assert forall|i: int, j: int| 0 <= i < j < rest.len() implies (#[trigger] rest[i]).0@ != (
        #[trigger] rest[j]).0@ by {
            assert(entries[i].0@ != entries[j].0@);
        }
        lemma_entries_map_len(rest);
        if has_key(rest, last.0@) {
            let p = position_of(rest, last.0@);
            assert(entries[p].0@ != entries[entries.len() - 1].0@);
        }
        lemma_push_is_insert(rest, last.0, last.1);
        assert(rest.push((last.0, last.1)) =~= entries);
    }
}

} // verus!
