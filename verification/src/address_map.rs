//! A map keyed by socket address, kept as a list of entries with distinct
//! keys.
use vstd::prelude::*;
use crate::address::SocketAddress;

verus! {

pub struct AddressMap<V> {
    entries: Vec<(SocketAddress, V)>,
}

/// Some entry of `entries` has key `k`.
pub open spec fn has_key<V>(entries: Seq<(SocketAddress, V)>, k: SocketAddress) -> bool {
    exists|i: int| 0 <= i < entries.len() && (#[trigger] entries[i]).0 == k
}

impl<V> View for AddressMap<V> {
    type V = Map<SocketAddress, V>;

    closed spec fn view(&self) -> Map<SocketAddress, V> {
        Map::new(
            |k: SocketAddress| has_key(self.entries@, k),
            |k: SocketAddress|
                self.entries@[choose|i: int|
                    0 <= i < self.entries@.len() && (#[trigger] self.entries@[i]).0 == k].1,
        )
    }
}

impl<V: Copy> AddressMap<V> {
    /// No two entries share a key.
    pub closed spec fn wf(&self) -> bool {
        forall|i: int, j: int|
            0 <= i < self.entries@.len() && 0 <= j < self.entries@.len() && i != j
                ==> (#[trigger] self.entries@[i]).0 != (#[trigger] self.entries@[j]).0
    }

    /// Creates an empty map.
    pub fn new() -> (m: Self)
        ensures
            m.wf(),
            m@ == Map::<SocketAddress, V>::empty(),
    {
        let m = AddressMap { entries: Vec::new() };
        assert(m@ =~= Map::<SocketAddress, V>::empty());
        m
    }

    /// The keys of the entries, in order.
    closed spec fn keys(&self) -> Seq<SocketAddress> {
        self.entries@.map_values(|e: (SocketAddress, V)| e.0)
    }

    proof fn lemma_dom_is_keys(&self)
        requires
            self.wf(),
        ensures
            self.keys().no_duplicates(),
            self@.dom() == self.keys().to_set(),
            self@.len() == self.entries@.len(),
    {
        assert(self@.dom() =~= self.keys().to_set()) by {
            assert forall|k: SocketAddress| self@.dom().contains(k) implies self.keys().contains(
                k,
            ) by {
                let i = choose|i: int| 0 <= i < self.entries@.len() && (#[trigger] self.entries@[i]).0 == k;
                assert(self.keys()[i] == k);
            }
            assert forall|k: SocketAddress| self.keys().contains(k) implies self@.dom().contains(
                k,
            ) by {
                let i = choose|i: int| 0 <= i < self.keys().len() && self.keys()[i] == k;
                assert(self.entries@[i].0 == k);
            }
        }
        assert(self.keys().no_duplicates()) by {
            assert forall|i: int, j: int|
                0 <= i < self.keys().len() && 0 <= j < self.keys().len() && i != j implies self.keys()[i]
                != self.keys()[j] by {
                assert(self.entries@[i].0 != self.entries@[j].0);
            }
        }
        self.keys().unique_seq_to_set();
    }

    /// Returns the number of entries.
    pub fn len(&self) -> (n: usize)
        requires
            self.wf(),
        ensures
            n == self@.len(),
    {
        proof {
            self.lemma_dom_is_keys();
        }
        self.entries.len()
    }

    /// Position of the entry with key `key`, if any.
    fn find(&self, key: &SocketAddress) -> (r: Option<usize>)
        requires
            self.wf(),
        ensures
            r is None ==> !self@.dom().contains(*key),
            r matches Some(i) ==> i < self.entries@.len() && self.entries@[i as int].0 == *key
                && self@.dom().contains(*key) && self@[*key] == self.entries@[i as int].1,
    {
        let mut i: usize = 0;
        while i < self.entries.len()
            invariant
                self.wf(),
                0 <= i <= self.entries@.len(),
                forall|j: int| 0 <= j < i ==> (#[trigger] self.entries@[j]).0 != *key,
            decreases self.entries@.len() - i,
        {
            if self.entries[i].0 == *key {
                proof {
                    assert(self@.dom().contains(*key));
                    let c = choose|j: int|
                        0 <= j < self.entries@.len() && (#[trigger] self.entries@[j]).0 == *key;
                    assert(c == i as int);
                }
                return Some(i);
            }
            i = i + 1;
        }
        None
    }

    /// Returns the value for `key`, if the map holds one.
    pub fn get(&self, key: &SocketAddress) -> (r: Option<&V>)
        requires
            self.wf(),
        ensures
            r is None <==> !self@.dom().contains(*key),
            r matches Some(v) ==> *v == self@[*key],
    {
        match self.find(key) {
            Some(i) => Some(&self.entries[i].1),
            None => None,
        }
    }

    /// Sets the value for `key` and returns the value it replaced, if any.
    pub fn insert(&mut self, key: SocketAddress, value: V) -> (r: Option<V>)
        requires
            old(self).wf(),
        ensures
            final(self).wf(),
            final(self)@ == old(self)@.insert(key, value),
            r == (if old(self)@.dom().contains(key) {
                Some(old(self)@[key])
            } else {
                None
            }),
    {
        let ghost old_entries = self.entries@;
        let ghost old_view = self@;
        match self.find(&key) {
            Some(i) => {
                let previous = self.entries[i].1;
                self.entries.set(i, (key, value));
                proof {
                    assert forall|a: int, c: int|
                        0 <= a < self.entries@.len() && 0 <= c < self.entries@.len() && a != c
                            implies (#[trigger] self.entries@[a]).0 != (
                        #[trigger] self.entries@[c]).0 by {
                        assert(old_entries[a].0 != old_entries[c].0);
                    }
                    assert forall|k: SocketAddress|
                        #![trigger self@.dom().contains(k)]
                        has_key(self.entries@, k) == has_key(old_entries, k) by {
                        if has_key(old_entries, k) {
                            let w = choose|j: int| 0 <= j < old_entries.len() && (#[trigger] old_entries[j]).0 == k;
                            assert(self.entries@[w].0 == k);
                        }
                        if has_key(self.entries@, k) {
                            let w = choose|j: int| 0 <= j < self.entries@.len() && (#[trigger] self.entries@[j]).0 == k;
                            assert(old_entries[w].0 == k);
                        }
                    }
                    assert forall|k: SocketAddress| self@.dom().contains(k) implies self@[k]
                        == old_view.insert(key, value)[k] by {
                        let w = choose|j: int| 0 <= j < self.entries@.len() && (#[trigger] self.entries@[j]).0 == k;
                        let w0 = choose|j: int| 0 <= j < old_entries.len() && (#[trigger] old_entries[j]).0 == k;
                        assert(old_entries[w].0 == k);
                        if w != w0 {
                            assert(old_entries[w].0 != old_entries[w0].0);
                        }
                    }
                    assert(self@ =~= old_view.insert(key, value));
                }
                Some(previous)
            },
            None => {
                self.entries.push((key, value));
                proof {
                    let n = old_entries.len() as int;
                    assert(self.entries@[n].0 == key);
                    assert forall|a: int, c: int|
                        0 <= a < self.entries@.len() && 0 <= c < self.entries@.len() && a != c
                            implies (#[trigger] self.entries@[a]).0 != (
                        #[trigger] self.entries@[c]).0 by {
                        if a < n && c < n {
                            assert(old_entries[a].0 != old_entries[c].0);
                        } else if a < n {
                            assert(old_entries[a] == self.entries@[a]);
                            assert(!has_key(old_entries, key));
                        } else if c < n {
                            assert(old_entries[c] == self.entries@[c]);
                            assert(!has_key(old_entries, key));
                        }
                    }
                    assert forall|k: SocketAddress|
                        #![trigger self@.dom().contains(k)]
                        has_key(self.entries@, k) == (has_key(old_entries, k) || k == key) by {
                        if has_key(old_entries, k) {
                            let w = choose|j: int| 0 <= j < old_entries.len() && (#[trigger] old_entries[j]).0 == k;
                            assert(self.entries@[w].0 == k);
                        }
                        if has_key(self.entries@, k) && k != key {
                            let w = choose|j: int| 0 <= j < self.entries@.len() && (#[trigger] self.entries@[j]).0 == k;
                            assert(w < n);
                            assert(old_entries[w].0 == k);
                        }
                    }
                    let target = old_view.insert(key, value);
                    assert forall|k: SocketAddress| self@.dom().contains(k) implies self@[k]
                        == target[k] by {
                        let w = choose|j: int| 0 <= j < self.entries@.len() && (#[trigger] self.entries@[j]).0 == k;
                        if k == key {
                            if w != n {
                                assert(self.entries@[w].0 != self.entries@[n].0);
                            }
                        } else {
                            let w0 = choose|j: int| 0 <= j < old_entries.len() && (#[trigger] old_entries[j]).0 == k;
                            assert(self.entries@[w0] == old_entries[w0]);
                            if w != w0 {
                                assert(self.entries@[w].0 != self.entries@[w0].0);
                            }
                        }
                    }
                    assert(self@ =~= target);
                }
                None
            },
        }
    }
}

} // verus!
