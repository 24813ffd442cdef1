//! A small map from byte strings to accounts: the storage in which the
//! registry keeps one account for each key.

use vstd::prelude::*;
use crate::bytes::bytes_equal;

verus! {

/// A finite map from byte strings to values, kept as two parallel lists in
/// which no key occurs twice.
pub struct Table<V> {
    keys: Vec<Vec<u8>>,
    values: Vec<V>,
}

impl<V> Table<V> {
    /// The two lists have the same length and no key occurs twice.
    pub closed spec fn spec_wf(&self) -> bool {
        &&& self.keys@.len() == self.values@.len()
        &&& forall|i: int, j: int|
            0 <= i < j < self.keys@.len() ==> self.keys@[i]@ != self.keys@[j]@
    }

    /// Whether some entry has the key.
    pub closed spec fn spec_has(&self, key: Seq<u8>) -> bool {
        exists|i: int| 0 <= i < self.keys@.len() && #[trigger] self.keys@[i]@ == key
    }

    /// The position of an entry with the key.
    pub closed spec fn spec_position(&self, key: Seq<u8>) -> int {
        choose|i: int| 0 <= i < self.keys@.len() && #[trigger] self.keys@[i]@ == key
    }

    /// The map that the table holds.
    pub closed spec fn view(&self) -> Map<Seq<u8>, V> {
        Map::new(|key: Seq<u8>| self.spec_has(key), |key: Seq<u8>| self.values@[self.spec_position(key)])
    }

    /// The entry at position `i` is the map's entry for its key.
    proof fn lemma_entry(&self, i: int)
        requires
            self.spec_wf(),
            0 <= i < self.keys@.len(),
        ensures
            self.spec_has(self.keys@[i]@),
            self.spec_position(self.keys@[i]@) == i,
            self@.contains_key(self.keys@[i]@),
            self@[self.keys@[i]@] == self.values@[i],
    {
        let key = self.keys@[i]@;
        assert(self.keys@[i]@ == key);
        let p = self.spec_position(key);
        assert(0 <= p < self.keys@.len() && self.keys@[p]@ == key);
        if p < i {
            assert(self.keys@[p]@ != self.keys@[i]@);
        } else if i < p {
            assert(self.keys@[i]@ != self.keys@[p]@);
        }
    }

    /// A key that the map holds is the key of the entry at its position.
    proof fn lemma_position(&self, key: Seq<u8>)
        requires
            self.spec_has(key),
        ensures
            0 <= self.spec_position(key) < self.keys@.len(),
            self.keys@[self.spec_position(key)]@ == key,
    {
    }

    /// The empty table.
    pub fn new() -> (table: Self)
        ensures
            table.spec_wf(),
            table@ == Map::<Seq<u8>, V>::empty(),
    {
        let table = Table { keys: Vec::new(), values: Vec::new() };
        assert(table@ =~= Map::<Seq<u8>, V>::empty());
        table
    }

    /// The position of the entry with the key, if there is one.
    fn find(&self, key: &[u8]) -> (found: Option<usize>)
        requires
            self.spec_wf(),
        ensures
            match found {
                Some(i) => i < self.keys@.len() && self.keys@[i as int]@ == key@ && self.spec_has(
                    key@,
                ) && self.spec_position(key@) == i,
                None => !self.spec_has(key@),
            },
    {
        let mut i: usize = 0;
        while i < self.keys.len()
            invariant
                self.spec_wf(),
                i <= self.keys@.len(),
                forall|j: int| 0 <= j < i ==> self.keys@[j]@ != key@,
            decreases self.keys@.len() - i,
        {
            if bytes_equal(self.keys[i].as_slice(), key) {
                proof {
                    self.lemma_entry(i as int);
                }
                return Some(i);
            }
            i += 1;
        }
        None
    }

    /// Whether the table has an entry for the key.
    pub fn contains(&self, key: &[u8]) -> (found: bool)
        requires
            self.spec_wf(),
        ensures
            found == self@.contains_key(key@),
    {
        self.find(key).is_some()
    }

    /// The value stored for the key, if there is one.
    pub fn get(&self, key: &[u8]) -> (found: Option<&V>)
        requires
            self.spec_wf(),
        ensures
            match found {
                Some(value) => self@.contains_key(key@) && *value == self@[key@],
                None => !self@.contains_key(key@),
            },
    {
        match self.find(key) {
            Some(i) => Some(&self.values[i]),
            None => None,
        }
    }

    /// Stores `value` for the key, in place of what was stored for it.
    pub fn put(&mut self, key: &[u8], value: V)
        requires
            old(self).spec_wf(),
        ensures
            final(self).spec_wf(),
            final(self)@ == old(self)@.insert(key@, value),
    {
        let ghost before = *self;
        match self.find(key) {
            Some(i) => {
                self.values[i] = value;
                proof {
                    assert(self.keys@ == before.keys@);
                    assert forall|k: Seq<u8>| self.spec_has(k) == before.spec_has(k) by {}
                    assert forall|k: Seq<u8>| self.spec_position(k) == before.spec_position(k) by {}
                    assert forall|k: Seq<u8>| #[trigger]
                        self@.contains_key(k) implies self@[k] == before@.insert(key@, value)[k] by {
                        before.lemma_position(k);
                        if k == key@ {
                        } else {
                            assert(before.spec_position(k) != i);
                        }
                    }
                    assert(self@ =~= before@.insert(key@, value));
                }
            },
            None => {
                self.keys.push(vstd::slice::slice_to_vec(key));
                self.values.push(value);
                proof {
                    let n = before.keys@.len() as int;
                    assert(self.keys@[n]@ == key@);
                    assert forall|i: int, j: int| 0 <= i < j < self.keys@.len() implies self.keys@[i]@
                        != self.keys@[j]@ by {
                        if j == n {
                            assert(before.keys@[i]@ == self.keys@[i]@);
                        } else {
                            assert(before.keys@[i]@ == self.keys@[i]@);
                            assert(before.keys@[j]@ == self.keys@[j]@);
                        }
                    }
                    assert forall|k: Seq<u8>| self.spec_has(k) == (k == key@ || before.spec_has(
                        k,
                    )) by {
                        if before.spec_has(k) {
                            before.lemma_position(k);
                            let p = before.spec_position(k);
                            assert(self.keys@[p]@ == k);
                        }
                        if self.spec_has(k) {
                            self.lemma_position(k);
                            let p = self.spec_position(k);
                            if p < n {
                                assert(before.keys@[p]@ == k);
                            }
                        }
                    }
                    assert forall|k: Seq<u8>| #[trigger]
                        self@.contains_key(k) implies self@[k] == before@.insert(key@, value)[k] by {
                        self.lemma_position(k);
                        let p = self.spec_position(k);
                        if k == key@ {
                            if p < n {
                                assert(before.keys@[p]@ == k);
                            }
                        } else {
                            assert(before.keys@[p]@ == k);
                            before.lemma_entry(p);
                        }
                    }
                    assert(self@ =~= before@.insert(key@, value));
                }
            },
        }
    }

    /// Removes the entry for the key and returns what was stored, if there
    /// was an entry.
    pub fn remove(&mut self, key: &[u8]) -> (removed: Option<V>)
        requires
            old(self).spec_wf(),
        ensures
            final(self).spec_wf(),
            final(self)@ == old(self)@.remove(key@),
            match removed {
                Some(value) => old(self)@.contains_key(key@) && value == old(self)@[key@],
                None => !old(self)@.contains_key(key@),
            },
    {
        let ghost before = *self;
        match self.find(key) {
            Some(i) => {
                let _ = self.keys.remove(i);
                let value = self.values.remove(i);
                proof {
                    let at = i as int;
                    assert forall|j: int| 0 <= j < self.keys@.len() implies #[trigger] self.keys@[j]
                        == before.keys@[if j < at {
                        j
                    } else {
                        j + 1
                    }] && self.values@[j] == before.values@[if j < at {
                        j
                    } else {
                        j + 1
                    }] by {}
                    assert forall|a: int, b: int| 0 <= a < b < self.keys@.len() implies self.keys@[a]@
                        != self.keys@[b]@ by {
                        let a0 = if a < at {
                            a
                        } else {
                            a + 1
                        };
                        let b0 = if b < at {
                            b
                        } else {
                            b + 1
                        };
                        assert(self.keys@[a] == before.keys@[a0]);
                        assert(self.keys@[b] == before.keys@[b0]);
                        assert(before.keys@[a0]@ != before.keys@[b0]@);
                    }
                    assert forall|k: Seq<u8>| self.spec_has(k) == (k != key@ && before.spec_has(
                        k,
                    )) by {
                        if self.spec_has(k) {
                            self.lemma_position(k);
                            let p = self.spec_position(k);
                            let prior = if p < at {
                                p
                            } else {
                                p + 1
                            };
                            assert(self.keys@[p] == before.keys@[prior]);
                            assert(before.keys@[prior]@ == k);
                            if k == key@ {
                                before.lemma_entry(prior);
                            }
                        }
                        if k != key@ && before.spec_has(k) {
                            before.lemma_position(k);
                            let prior = before.spec_position(k);
                            let p = if prior < at {
                                prior
                            } else {
                                prior - 1
                            };
                            assert(self.keys@[p] == before.keys@[prior]);
                            assert(self.keys@[p]@ == k);
                        }
                    }
                    assert forall|k: Seq<u8>| #[trigger]
                        self@.contains_key(k) implies self@[k] == before@.remove(key@)[k] by {
                        self.lemma_position(k);
                        let p = self.spec_position(k);
                        let prior = if p < at {
                            p
                        } else {
                            p + 1
                        };
                        assert(self.keys@[p] == before.keys@[prior]);
                        assert(self.values@[p] == before.values@[prior]);
                        before.lemma_entry(prior);
                    }
                    assert(self@ =~= before@.remove(key@));
                    before.lemma_entry(at);
                }
                Some(value)
            },
            None => {
                assert(self@ =~= before@.remove(key@));
                None
            },
        }
    }
}

} // verus!
