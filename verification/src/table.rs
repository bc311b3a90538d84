//! Key-value tables: the storage behind every list that a policy keeps.

use vstd::prelude::*;
use crate::values::{Address, Text};

verus! {

/// A key of a [`Table`]: two keys are the same if their views are.
pub trait Key: View + Sized {
    /// Whether the two keys are the same.
    fn same(&self, other: &Self) -> (same: bool)
        ensures
            same == (self@ == other@),
    ;
}

impl Key for Address {
    fn same(&self, other: &Address) -> (same: bool) {
        *self == *other
    }
}

impl Key for Text {
    fn same(&self, other: &Text) -> (same: bool) {
        if self.bytes.len() != other.bytes.len() {
            return false;
        }
        let mut i: usize = 0;
        while i < self.bytes.len()
            invariant
                i <= self.bytes.len(),
                self.bytes.len() == other.bytes.len(),
                forall|j: int| 0 <= j < i ==> self.bytes[j] == other.bytes[j],
            decreases self.bytes.len() - i,
        {
            if self.bytes[i] != other.bytes[i] {
                assert(self@[i as int] != other@[i as int]);
                return false;
            }
            i = i + 1;
        }
        assert(self@ =~= other@);
        true
    }
}

impl Key for (Text, Address) {
    fn same(&self, other: &(Text, Address)) -> (same: bool) {
        self.0.same(&other.0) && self.1.same(&other.1)
    }
}

/// Whether `i` is the first position in `entries` that holds the key `key`, or
/// the number of entries if none does.
pub open spec fn is_position<K: Key, V: View>(entries: Seq<(K, V)>, key: K::V, i: int) -> bool {
    &&& 0 <= i <= entries.len()
    &&& forall|j: int| 0 <= j < i ==> (#[trigger] entries[j]).0@ != key
    &&& i < entries.len() ==> entries[i].0@ == key
}

/// Whether some entry holds the key `key`.
pub open spec fn holds_key<K: Key, V: View>(entries: Seq<(K, V)>, key: K::V) -> bool {
    exists|i: int| 0 <= i < entries.len() && (#[trigger] entries[i]).0@ == key
}

/// The first position in `entries` that holds the key `key`.
pub open spec fn position_of<K: Key, V: View>(entries: Seq<(K, V)>, key: K::V) -> int {
    choose|i: int| is_position(entries, key, i)
}

/// The map that a list of entries stands for: of two entries with the same
/// key, the first one counts.
pub open spec fn entries_map<K: Key, V: View>(entries: Seq<(K, V)>) -> Map<K::V, V::V> {
    Map::new(
        |key: K::V| holds_key(entries, key),
        |key: K::V| entries[position_of(entries, key)].1@,
    )
}

/// Whether the two maps agree at `key`.
spec fn same_at<A, B>(one: Map<A, B>, other: Map<A, B>, key: A) -> bool {
    &&& one.dom().contains(key) == other.dom().contains(key)
    &&& one.dom().contains(key) ==> one[key] == other[key]
}

/// A position found is the position: it tells whether the key is there and what
/// it maps to.
pub(crate) proof fn lemma_position<K: Key, V: View>(entries: Seq<(K, V)>, key: K::V, i: int)
    requires
        is_position(entries, key, i),
    ensures
        entries_map(entries).contains_key(key) == (i < entries.len()),
        i < entries.len() ==> entries_map(entries)[key] == entries[i].1@,
{
    let p = position_of(entries, key);
    assert(is_position(entries, key, p));
    if p < i {
        assert(entries[p].0@ != key);
    }
    if i < p {
        assert(entries[i].0@ != key);
    }
    if holds_key(entries, key) {
        let j = choose|j: int| 0 <= j < entries.len() && (#[trigger] entries[j]).0@ == key;
        assert(j >= i);
    } else if i < entries.len() {
        assert(entries[i].0@ == key);
    }
}

/// Every key has a position.
proof fn lemma_position_exists<K: Key, V: View>(entries: Seq<(K, V)>, key: K::V) -> (i: int)
    ensures
        is_position(entries, key, i),
    decreases entries.len(),
{
    if entries.len() == 0 {
        0
    } else {
        let rest = entries.drop_last();
        let i = lemma_position_exists(rest, key);
        assert forall|j: int| 0 <= j < i implies (#[trigger] entries[j]).0@ != key by {
            assert(rest[j].0@ != key);
        }
        if i < rest.len() {
            assert(entries[i] == rest[i]);
            i
        } else if entries.last().0@ == key {
            i
        } else {
            assert forall|j: int| 0 <= j < i + 1 implies (#[trigger] entries[j]).0@ != key by {
                if j < i {
                    assert(rest[j].0@ != key);
                }
            }
            i + 1
        }
    }
}

/// A table of values by key.
#[derive(Debug, PartialEq, Eq)]
pub struct Table<K, V> {
    pub entries: Vec<(K, V)>,
}

impl<K: Key, V: View> View for Table<K, V> {
    type V = Map<K::V, V::V>;

    open spec fn view(&self) -> Map<K::V, V::V> {
        entries_map(self.entries@)
    }
}

impl<K: Key, V: View> Table<K, V> {
    /// The table without entries.
    pub fn new() -> (table: Table<K, V>)
        ensures
            table@ == Map::<K::V, V::V>::empty(),
    {
        let table = Table { entries: Vec::new() };
        assert(table@ =~= Map::<K::V, V::V>::empty());
        table
    }

    fn position(&self, key: &K) -> (found: usize)
        ensures
            is_position(self.entries@, key@, found as int),
    {
        let mut i: usize = 0;
        while i < self.entries.len()
            invariant
                i <= self.entries.len(),
                forall|j: int| 0 <= j < i ==> (#[trigger] self.entries@[j]).0@ != key@,
            decreases self.entries.len() - i,
        {
            if self.entries[i].0.same(key) {
                return i;
            }
            i = i + 1;
        }
        i
    }

    /// Whether an entry is stored under `key`.
    pub fn has(&self, key: &K) -> (found: bool)
        ensures
            found == self@.contains_key(key@),
    {
        let i: usize = self.position(key);
        proof {
            lemma_position(self.entries@, key@, i as int);
        }
        i < self.entries.len()
    }

    /// The value stored under `key`, if there is one.
    pub fn get(&self, key: &K) -> (value: Option<&V>)
        ensures
            value is Some == self@.contains_key(key@),
            value matches Some(v) ==> v@ == self@[key@],
    {
        let i: usize = self.position(key);
        proof {
            lemma_position(self.entries@, key@, i as int);
        }
        if i < self.entries.len() {
            Some(&self.entries[i].1)
        } else {
            None
        }
    }

    /// Stores `value` under `key`, in place of what was stored there.
    pub fn set(&mut self, key: K, value: V)
        ensures
            final(self)@ == old(self)@.insert(key@, value@),
    {
        let i: usize = self.position(&key);
        let ghost before = self.entries@;
        let ghost entry = (key, value);
        if i < self.entries.len() {
            self.entries.set(i, (key, value));
        } else {
            self.entries.push((key, value));
        }
        proof {
            let after = self.entries@;
            let expected = entries_map(before).insert(entry.0@, entry.1@);
            assert forall|k: K::V|
                #![trigger entries_map(after).dom().contains(k)]
                #![trigger entries_map(after)[k]]
                same_at(entries_map(after), expected, k) by {
                if k == entry.0@ {
                    assert forall|j: int| 0 <= j < i implies (#[trigger] after[j]).0@ != k by {
                        assert(after[j] == before[j]);
                    }
                    assert(is_position(after, k, i as int));
                    lemma_position(after, k, i as int);
                } else {
                    let p = lemma_position_exists(before, k);
                    lemma_position(before, k, p);
                    assert forall|j: int| 0 <= j < p implies (#[trigger] after[j]).0@ != k by {
                        assert(j == i || after[j] == before[j]);
                        if j != i {
                            assert(before[j].0@ != k);
                        }
                    }
                    let q = if p < before.len() {
                        p
                    } else {
                        after.len() as int
                    };
                    assert(is_position(after, k, q));
                    lemma_position(after, k, q);
                }
            }
            assert(entries_map(after) =~= expected);
        }
    }

    /// Removes what is stored under `key`.
    pub fn remove(&mut self, key: &K)
        ensures
            final(self)@ == old(self)@.remove(key@),
    {
        let ghost start = self@;
        let mut i: usize = 0;
        while i < self.entries.len()
            invariant
                i <= self.entries.len(),
                forall|j: int| 0 <= j < i ==> (#[trigger] self.entries@[j]).0@ != key@,
                self@.remove(key@) == start.remove(key@),
            decreases self.entries.len() - i,
        {
            if self.entries[i].0.same(key) {
                let ghost before = self.entries@;
                self.entries.remove(i);
                proof {
                    lemma_remove_entry(before, i as int);
                    assert forall|j: int| 0 <= j < i implies (#[trigger] self.entries@[j]).0@
                        != key@ by {
                        assert(self.entries@[j] == before[j]);
                    }
                }
            } else {
                i = i + 1;
            }
        }
        proof {
            lemma_position(self.entries@, key@, i as int);
            assert(self@ =~= start.remove(key@)) by {
                assert(self@ =~= self@.remove(key@));
            }
        }
    }
}

/// Taking one entry out changes nothing under the other keys.
proof fn lemma_remove_entry<K: Key, V: View>(entries: Seq<(K, V)>, i: int)
    requires
        0 <= i < entries.len(),
    ensures
        entries_map(entries.remove(i)).remove(entries[i].0@) == entries_map(entries).remove(
            entries[i].0@,
        ),
{
    let after = entries.remove(i);
    let key = entries[i].0@;
    assert forall|k: K::V|
        #![trigger entries_map(after).dom().contains(k)]
        #![trigger entries_map(after)[k]]
        k != key implies same_at(entries_map(after), entries_map(entries), k) by {
        let p = lemma_position_exists(entries, k);
        lemma_position(entries, k, p);
        let q = if p <= i {
            p
        } else {
            p - 1
        };
        assert(p != i);
        assert forall|j: int| 0 <= j < q implies (#[trigger] after[j]).0@ != k by {
            if j < i {
                assert(after[j] == entries[j]);
            } else {
                assert(after[j] == entries[j + 1]);
            }
        }
        assert(is_position(after, k, q));
        lemma_position(after, k, q);
    }
    assert(entries_map(after).remove(key) =~= entries_map(entries).remove(key));
}

} // verus!
