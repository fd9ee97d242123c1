//! A list of string-keyed entries that keeps insertion order and unique keys.

use vstd::prelude::*;
use vstd::string::StringExecFns;

verus! {

/// Entries keyed by string, oldest first, with no key twice.
pub struct KeyedVec<V> {
    entries: Vec<(String, V)>,
}

impl<V> KeyedVec<V> {
    /// The keys, oldest first.
    pub closed spec fn keys(&self) -> Seq<Seq<char>> {
        self.entries@.map_values(|e: (String, V)| e.0@)
    }

    /// The values, in the order of their keys.
    pub closed spec fn values(&self) -> Seq<V> {
        self.entries@.map_values(|e: (String, V)| e.1)
    }

    /// No key occurs twice.
    pub closed spec fn wf(&self) -> bool {
        self.keys().no_duplicates()
    }

    /// Whether an entry has key `k`.
    pub open spec fn has(&self, k: Seq<char>) -> bool {
        self.keys().contains(k)
    }

    /// The value stored under `k`, if any.
    pub closed spec fn spec_get(&self, k: Seq<char>) -> Option<V> {
        if self.has(k) {
            Some(self.values()[self.keys().index_of(k)])
        } else {
            None
        }
    }

    /// The number of entries.
    pub open spec fn spec_len(&self) -> nat {
        self.keys().len()
    }

    /// A value is stored under exactly the keys that occur.
    pub proof fn lemma_get_iff_has(&self)
        ensures
            forall|k: Seq<char>| #[trigger] self.spec_get(k) is Some <==> self.has(k),
    {
    }

    /// Keys and values line up, and the keys have no repeats.
    pub proof fn lemma_shape(&self)
        requires
            self.wf(),
        ensures
            self.keys().len() == self.values().len(),
            self.keys().no_duplicates(),
            forall|i: int|
                0 <= i < self.keys().len() ==> #[trigger] self.spec_get(self.keys()[i]) == Some(
                    self.values()[i],
                ),
    {
        assert forall|i: int| 0 <= i < self.keys().len() implies #[trigger] self.spec_get(
            self.keys()[i],
        ) == Some(self.values()[i]) by {
            let k = self.keys()[i];
            assert(self.keys().contains(k));
            let j = self.keys().index_of(k);
            assert(self.keys()[j] == k);
        }
    }

    /// An empty list.
    pub fn new() -> (r: KeyedVec<V>)
        ensures
            r.wf(),
            r.keys().len() == 0,
            r.values().len() == 0,
    {
        KeyedVec { entries: Vec::new() }
    }

    /// The number of entries.
    pub fn len(&self) -> (r: usize)
        ensures
            r == self.spec_len(),
    {
        self.entries.len()
    }

    /// Finds the position of key `k`.
    pub fn position(&self, k: &str) -> (r: Option<usize>)
        requires
            self.wf(),
        ensures
            r matches Some(i) ==> i < self.spec_len() && self.keys()[i as int] == k@
                && self.keys().index_of(k@) == i,
            r is None <==> !self.has(k@),
    {
        let key = String::from_str(k);
        let mut i: usize = 0;
        while i < self.entries.len()
            invariant
                i <= self.entries@.len(),
                self.wf(),
                key@ == k@,
                forall|j: int| 0 <= j < i ==> self.entries@[j].0@ != k@,
            decreases self.entries@.len() - i,
        {
            if self.entries[i].0 == key {
                proof {
                    assert(self.keys()[i as int] == k@);
                    assert(self.has(k@));
                    let j = self.keys().index_of(k@);
                    assert(self.keys()[j] == k@);
                }
                return Some(i);
            }
            i = i + 1;
        }
        proof {
            if self.has(k@) {
                let j = self.keys().index_of(k@);
                assert(self.keys()[j] == k@);
            }
        }
        None
    }

    /// The value stored under `k`, if any.
    pub fn get(&self, k: &str) -> (r: Option<&V>)
        requires
            self.wf(),
        ensures
            r is None <==> self.spec_get(k@) is None,
            r is None <==> !self.has(k@),
            r matches Some(v) ==> self.spec_get(k@) == Some(*v),
    {
        match self.position(k) {
            Some(i) => Some(&self.entries[i].1),
            None => None,
        }
    }

    /// The key and value at position `i`.
    pub fn entry_at(&self, i: usize) -> (r: (&String, &V))
        requires
            i < self.spec_len(),
        ensures
            r.0@ == self.keys()[i as int],
            *r.1 == self.values()[i as int],
    {
        let e = &self.entries[i];
        (&e.0, &e.1)
    }

    /// Stores `v` under `k`. An existing entry keeps its place and takes the new
    /// value; a new key goes last.
    pub fn upsert(&mut self, k: String, v: V)
        requires
            old(self).wf(),
        ensures
            final(self).wf(),
            final(self).spec_get(k@) == Some(v),
            forall|o: Seq<char>| o != k@ ==> final(self).spec_get(o) == old(self).spec_get(o),
            old(self).has(k@) ==> final(self).keys() == old(self).keys(),
            !old(self).has(k@) ==> final(self).keys() == old(self).keys().push(k@),
    {
        let ghost key = k@;
        match self.position(k.as_str()) {
            Some(i) => {
                self.entries.set(i, (k, v));
                proof {
                    assert(self.keys() =~= old(self).keys());
                    assert(self.values() =~= old(self).values().update(i as int, v));
                    assert(self.keys()[i as int] == key);
                }
            },
            None => {
                self.entries.push((k, v));
                proof {
                    assert(self.keys() =~= old(self).keys().push(key));
                    assert(self.values() =~= old(self).values().push(v));
                    let n = old(self).keys().len() as int;
                    assert(self.keys()[n] == key);
                    assert forall|a: int, b: int|
                        0 <= a < self.keys().len() && 0 <= b < self.keys().len() && a != b
                            implies self.keys()[a] != self.keys()[b] by {
                        if a == n {
                            assert(old(self).keys()[b] == self.keys()[b]);
                        } else if b == n {
                            assert(old(self).keys()[a] == self.keys()[a]);
                        }
                    }
                }
            },
        }
        proof {
            old(self).lemma_shape();
            self.lemma_shape();
            assert forall|o: Seq<char>| o != key implies self.spec_get(o) == old(self).spec_get(
                o,
            ) by {
                if old(self).has(o) {
                    let j = old(self).keys().index_of(o);
                    assert(self.keys()[j] == o);
                }
                if self.has(o) {
                    let j = self.keys().index_of(o);
                    assert(old(self).keys()[j] == o);
                }
            }
            let j = self.keys().index_of(key);
            assert(self.keys().contains(key));
        }
    }

    /// Removes the entry with key `k`, if any; the others keep their order.
    pub fn remove(&mut self, k: &str) -> (r: Option<V>)
        requires
            old(self).wf(),
        ensures
            final(self).wf(),
            r == old(self).spec_get(k@),
            !final(self).has(k@),
            forall|o: Seq<char>| o != k@ ==> final(self).spec_get(o) == old(self).spec_get(o),
            old(self).has(k@) ==> final(self).spec_len() + 1 == old(self).spec_len(),
            !old(self).has(k@) ==> final(self).keys() == old(self).keys(),
    {
        match self.position(k) {
            Some(i) => {
                let (_, v) = self.entries.remove(i);
                proof {
                    assert(self.keys() =~= old(self).keys().remove(i as int));
                    assert(self.values() =~= old(self).values().remove(i as int));
                    old(self).lemma_shape();
                    self.lemma_shape();
                    assert(!self.has(k@)) by {
                        if self.has(k@) {
                            let j = self.keys().index_of(k@);
                            if j < i {
                                assert(old(self).keys()[j] == k@);
                            } else {
                                assert(old(self).keys()[j + 1] == k@);
                            }
                        }
                    }
                    assert forall|o: Seq<char>| o != k@ implies self.spec_get(o) == old(
                        self,
                    ).spec_get(o) by {
                        if old(self).has(o) {
                            let j = old(self).keys().index_of(o);
                            if j < i {
                                assert(self.keys()[j] == o);
                            } else {
                                assert(self.keys()[j - 1] == o);
                            }
                        }
                        if self.has(o) {
                            let j = self.keys().index_of(o);
                            if j < i {
                                assert(old(self).keys()[j] == o);
                            } else {
                                assert(old(self).keys()[j + 1] == o);
                            }
                        }
                    }
                }
                Some(v)
            },
            None => None,
        }
    }

    /// Removes and returns the oldest entry.
    pub fn pop_oldest(&mut self) -> (r: (String, V))
        requires
            old(self).wf(),
            old(self).spec_len() > 0,
        ensures
            final(self).wf(),
            r.0@ == old(self).keys()[0],
            r.1 == old(self).values()[0],
            final(self).keys() == old(self).keys().drop_first(),
            final(self).values() == old(self).values().drop_first(),
            !final(self).has(r.0@),
            forall|o: Seq<char>| o != r.0@ ==> final(self).spec_get(o) == old(self).spec_get(o),
    {
        let r = self.entries.remove(0);
        proof {
            assert(self.keys() =~= old(self).keys().drop_first());
            assert(self.values() =~= old(self).values().drop_first());
            old(self).lemma_shape();
            self.lemma_shape();
            let k = r.0@;
            assert(old(self).keys()[0] == k);
            assert(!self.has(k)) by {
                if self.has(k) {
                    let j = self.keys().index_of(k);
                    assert(old(self).keys()[j + 1] == k);
                }
            }
            assert forall|o: Seq<char>| o != k implies self.spec_get(o) == old(self).spec_get(
                o,
            ) by {
                if old(self).has(o) {
                    let j = old(self).keys().index_of(o);
                    assert(j != 0);
                    assert(self.keys()[j - 1] == o);
                }
                if self.has(o) {
                    let j = self.keys().index_of(o);
                    assert(old(self).keys()[j + 1] == o);
                }
            }
        }
        r
    }
}

} // verus!
