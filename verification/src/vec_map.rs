//! A small map, kept as a list of entries.

use vstd::prelude::*;

verus! {

/// A type whose values can be looked up: two of them are the same key where
/// their views agree.
pub trait MapKey: View + Sized {
    /// Whether the two are the same key.
    fn same_key(&self, other: &Self) -> (same: bool)
        ensures
            same == (self@ == other@),
    ;
}

/// A map from the views of its keys to its values. No key occurs twice.
pub struct VecMap<K, V> {
    entries: Vec<(K, V)>,
}

impl<K: MapKey, V> VecMap<K, V> {
    /// Whether the entry at `i` is that of `key`.
    spec fn holds(&self, key: <K as View>::V, i: int) -> bool {
        0 <= i < self.entries@.len() && self.entries@[i].0@ == key
    }

    /// Whether no key occurs twice.
    pub closed spec fn wf(&self) -> bool {
        forall|i: int, j: int|
            0 <= i < j < self.entries@.len() ==> #[trigger] self.entries@[i].0@
                != #[trigger] self.entries@[j].0@
    }
}

impl<K: MapKey, V> View for VecMap<K, V> {
    type V = Map<<K as View>::V, V>;

    closed spec fn view(&self) -> Map<<K as View>::V, V> {
        Map::new(
            |key: <K as View>::V| exists|i: int| self.holds(key, i),
            |key: <K as View>::V| self.entries@[choose|i: int| self.holds(key, i)].1,
        )
    }
}

impl<K: MapKey, V> VecMap<K, V> {
    /// Makes the empty map.
    pub fn new() -> (map: VecMap<K, V>)
        ensures
            map.wf(),
            map@ == Map::<<K as View>::V, V>::empty(),
    {
        let map = VecMap { entries: Vec::new() };
        assert(map@ =~= Map::<<K as View>::V, V>::empty());
        map
    }

    /// An entry is what the map says of its key.
    proof fn lemma_entry(&self, i: int)
        requires
            self.wf(),
            0 <= i < self.entries@.len(),
        ensures
            self@.dom().contains(self.entries@[i].0@),
            self@[self.entries@[i].0@] == self.entries@[i].1,
    {
        let key = self.entries@[i].0@;
        assert(self.holds(key, i));
        let k = choose|k: int| self.holds(key, k);
        assert(self.holds(key, k));
        assert(k == i);
    }

    /// Setting the entry at `i`, or appending one there, sets the value of its key.
    proof fn lemma_inserted(&self, after: &VecMap<K, V>, i: int)
        requires
            self.wf(),
            after.wf(),
            0 <= i < after.entries@.len(),
            self.entries@.len() <= after.entries@.len(),
            i < self.entries@.len() ==> self.entries@[i].0@ == after.entries@[i].0@,
            forall|j: int|
                #![trigger self.entries@[j]]
                #![trigger after.entries@[j]]
                0 <= j < after.entries@.len() && j != i ==> j < self.entries@.len()
                    && after.entries@[j] == self.entries@[j],
        ensures
            after@ == self@.insert(after.entries@[i].0@, after.entries@[i].1),
    {
        let (key, value) = (after.entries@[i].0@, after.entries@[i].1);
        assert forall|k: <K as View>::V| after@.dom().contains(k) == (self@.dom().contains(k) || k
            == key) by {
            if self@.dom().contains(k) {
                let j = choose|j: int| self.holds(k, j);
                assert(after.holds(k, j));
            }
            if after@.dom().contains(k) && k != key {
                let j = choose|j: int| after.holds(k, j);
                assert(self.holds(k, j));
            }
            assert(after.holds(key, i));
        }
        assert forall|k: <K as View>::V| after@.dom().contains(k) implies after@[k] == (if k == key {
            value
        } else {
            self@[k]
        }) by {
            let j = choose|j: int| after.holds(k, j);
            after.lemma_entry(j);
            if j != i {
                self.lemma_entry(j);
            }
        }
        assert(after@ =~= self@.insert(key, value));
    }

    /// The position of the entry of `key`, where there is one.
    fn position(&self, key: &K) -> (position: Option<usize>)
        ensures
            match position {
                Some(i) => i < self.entries@.len() && self.entries@[i as int].0@ == key@,
                None => forall|i: int|
                    0 <= i < self.entries@.len() ==> #[trigger] self.entries@[i].0@ != key@,
            },
    {
        let mut i: usize = 0;
        while i < self.entries.len()
            invariant
                i <= self.entries.len(),
                forall|j: int| 0 <= j < i ==> #[trigger] self.entries@[j].0@ != key@,
            decreases self.entries.len() - i,
        {
            if self.entries[i].0.same_key(key) {
                return Some(i);
            }
            i = i + 1;
        }
        None
    }

    /// Looks up a key.
    pub fn get(&self, key: &K) -> (value: Option<&V>)
        requires
            self.wf(),
        ensures
            match value {
                Some(v) => self@.dom().contains(key@) && self@[key@] == *v,
                None => !self@.dom().contains(key@),
            },
    {
        match self.position(key) {
            Some(i) => {
                proof {
                    self.lemma_entry(i as int);
                }
                Some(&self.entries[i].1)
            },
            None => None,
        }
    }

    /// Sets the value of a key, in place of the value it had.
    pub fn insert(&mut self, key: K, value: V)
        requires
            old(self).wf(),
        ensures
            final(self).wf(),
            final(self)@ == old(self)@.insert(key@, value),
    {
        let ghost before = *self;
        match self.position(&key) {
            Some(i) => {
                self.entries.set(i, (key, value));
                proof {
                    before.lemma_inserted(self, i as int);
                }
            },
            None => {
                self.entries.push((key, value));
                proof {
                    before.lemma_inserted(self, before.entries@.len() as int);
                }
            },
        }
    }
}

} // verus!
