//! The session cache that a manager of many conversations keeps, and the
//! decisions it makes when a session has to be loaded.

use crate::agent::AgentState;
use crate::error::OpenAIAgentError;
use crate::keyed::KeyedVec;
use vstd::prelude::*;
use vstd::string::StringExecFns;

verus! {

/// The last `cap` elements of `s`, or all of `s` when it is not longer than `cap`.
pub open spec fn keep_newest(s: Seq<Seq<char>>, cap: nat) -> Seq<Seq<char>> {
    if s.len() <= cap {
        s
    } else {
        s.subrange(s.len() - cap, s.len() as int)
    }
}

/// The keys a cache of capacity `cap` holds after `ids` were inserted, one
/// after the other, into an empty cache, each while it was not cached.
pub open spec fn after_fresh_inserts(cap: nat, ids: Seq<Seq<char>>) -> Seq<Seq<char>>
    decreases ids.len(),
{
    if ids.len() == 0 {
        Seq::empty()
    } else {
        keep_newest(after_fresh_inserts(cap, ids.drop_last()).push(ids.last()), cap)
    }
}

/// Trimming to the newest `cap` before or after appending one more gives the same.
proof fn lemma_keep_newest_push(s: Seq<Seq<char>>, x: Seq<char>, cap: nat)
    ensures
        keep_newest(keep_newest(s, cap).push(x), cap) =~= keep_newest(s.push(x), cap),
{
}

/// Filling a cache in insertion order: after `ids` are inserted into an empty
/// cache of capacity `cap`, it holds the `cap` most recently inserted ids; so
/// after `cap + k` insertions (k at least one) it holds exactly `cap` entries.
pub proof fn lemma_fill_to_capacity(cap: nat, ids: Seq<Seq<char>>)
    ensures
        after_fresh_inserts(cap, ids) == keep_newest(ids, cap),
        ids.len() > cap ==> after_fresh_inserts(cap, ids).len() == cap,
        ids.len() <= cap ==> after_fresh_inserts(cap, ids).len() == ids.len(),
    decreases ids.len(),
{
    if ids.len() > 0 {
        lemma_fill_to_capacity(cap, ids.drop_last());
        lemma_keep_newest_push(ids.drop_last(), ids.last(), cap);
        assert(ids.drop_last().push(ids.last()) =~= ids);
    }
}

/// What one insertion does to a cache's keys, as `SessionCache::insert` ensures.
pub open spec fn inserted_keys(keys: Seq<Seq<char>>, id: Seq<char>, cap: nat) -> Seq<Seq<char>> {
    if keys.contains(id) {
        keys
    } else {
        keep_newest(keys.push(id), cap)
    }
}

/// Inserting distinct ids one after the other into an empty cache of capacity
/// `cap` leaves the `cap` most recent of them; so after `cap + k` sessions are
/// created (k at least one) the cache holds exactly `cap` entries. `keys[i]` is
/// the cache's key list before the `i`-th insertion and `keys.last()` after the last.
pub proof fn lemma_insert_sequence(cap: nat, ids: Seq<Seq<char>>, keys: Seq<Seq<Seq<char>>>)
    requires
        ids.no_duplicates(),
        keys.len() == ids.len() + 1,
        keys[0].len() == 0,
        forall|i: int| 0 <= i < ids.len() ==> #[trigger] keys[i + 1] == inserted_keys(keys[i], ids[i], cap),
    ensures
        keys.last() == keep_newest(ids, cap),
        ids.len() > cap ==> keys.last().len() == cap,
        ids.len() <= cap ==> keys.last().len() == ids.len(),
    decreases ids.len(),
{
    if ids.len() == 0 {
        assert(keys.last() =~= keep_newest(ids, cap));
    } else {
        let n = ids.len() - 1;
        let front_ids = ids.drop_last();
        let front_keys = keys.drop_last();
        assert forall|i: int| 0 <= i < front_ids.len() implies #[trigger] front_keys[i + 1]
            == inserted_keys(front_keys[i], front_ids[i], cap) by {
            assert(keys[i + 1] == inserted_keys(keys[i], ids[i], cap));
        }
        assert(front_ids.no_duplicates()) by {
            assert forall|a: int, b: int| 0 <= a < b < front_ids.len() implies front_ids[a]
                != front_ids[b] by {
                assert(ids[a] != ids[b]);
            }
        }
        lemma_insert_sequence(cap, front_ids, front_keys);
        let prev = keys[n];
        assert(prev == keep_newest(front_ids, cap));
        assert(!prev.contains(ids[n])) by {
            if prev.contains(ids[n]) {
                let j = prev.index_of(ids[n]);
                if front_ids.len() <= cap {
                    assert(front_ids[j] == ids[n]);
                } else {
                    let off = front_ids.len() - cap;
                    assert(front_ids[off + j] == ids[n]);
                    assert(ids[off + j] == ids[n]);
                }
            }
        }
        assert(keys[n + 1] == inserted_keys(keys[n], ids[n], cap));
        lemma_keep_newest_push(front_ids, ids[n], cap);
        assert(front_ids.push(ids[n]) =~= ids);
    }
    lemma_fill_to_capacity(cap, ids);
}

/// A bounded cache of session handles of type `H`, keyed by session id.
///
/// When an insertion takes it over capacity, the oldest-inserted entries leave
/// first. Eviction only drops the handle; durable storage is not touched.
pub struct SessionCache<H> {
    entries: KeyedVec<H>,
    capacity: usize,
}

impl<H> SessionCache<H> {
    /// The cached ids, oldest-inserted first.
    pub closed spec fn keys(&self) -> Seq<Seq<char>> {
        self.entries.keys()
    }

    /// The handle cached under `id`, if any.
    pub closed spec fn spec_get(&self, id: Seq<char>) -> Option<H> {
        self.entries.spec_get(id)
    }

    /// The most entries the cache keeps.
    pub closed spec fn spec_capacity(&self) -> nat {
        self.capacity as nat
    }

    /// Ids are unique and the cache is within its capacity.
    pub closed spec fn wf(&self) -> bool {
        &&& self.entries.wf()
        &&& self.entries.spec_len() <= self.capacity
    }

    /// An empty cache that keeps at most `capacity` entries.
    pub fn new(capacity: usize) -> (r: SessionCache<H>)
        ensures
            r.wf(),
            r.keys().len() == 0,
            r.spec_capacity() == capacity,
    {
        SessionCache { entries: KeyedVec::new(), capacity }
    }

    /// The number of cached sessions.
    pub fn len(&self) -> (r: usize)
        ensures
            r == self.keys().len(),
    {
        self.entries.len()
    }

    /// The most entries the cache keeps.
    pub fn capacity(&self) -> (r: usize)
        ensures
            r == self.spec_capacity(),
    {
        self.capacity
    }

    /// Whether `id` is cached.
    pub fn contains(&self, id: &str) -> (r: bool)
        requires
            self.wf(),
        ensures
            r == self.keys().contains(id@),
    {
        self.entries.position(id).is_some()
    }

    /// The handle cached under `id`, if any.
    pub fn get(&self, id: &str) -> (r: Option<&H>)
        requires
            self.wf(),
        ensures
            r is None <==> self.spec_get(id@) is None,
            r matches Some(h) ==> self.spec_get(id@) == Some(*h),
            r is None <==> !self.keys().contains(id@),
    {
        proof {
            self.entries.lemma_shape();
        }
        self.entries.get(id)
    }

    /// Caches `handle` under `id`, then evicts oldest-inserted entries until the
    /// cache is back within capacity; returns the evicted ids, oldest first. An
    /// id that is already cached keeps its place and takes the new handle.
    pub fn insert(&mut self, id: String, handle: H) -> (evicted: Vec<String>)
        requires
            old(self).wf(),
        ensures
            final(self).wf(),
            final(self).spec_capacity() == old(self).spec_capacity(),
            final(self).keys() == inserted_keys(old(self).keys(), id@, old(self).spec_capacity()),
            !old(self).keys().contains(id@) ==> final(self).keys() == keep_newest(
                old(self).keys().push(id@),
                old(self).spec_capacity(),
            ),
            old(self).keys().contains(id@) ==> final(self).keys() == old(self).keys()
                && evicted@.len() == 0,
            final(self).keys().contains(id@) ==> final(self).spec_get(id@) == Some(handle),
            old(self).spec_capacity() > 0 ==> final(self).keys().contains(id@),
            forall|o: Seq<char>|
                o != id@ && final(self).keys().contains(o) ==> final(self).spec_get(o) == old(
                    self,
                ).spec_get(o),
    {
        let ghost id_view = id@;
        self.entries.upsert(id, handle);
        let ghost all = self.entries.keys();
        let ghost after_upsert = self.entries;
        let mut evicted: Vec<String> = Vec::new();
        while self.entries.len() > self.capacity
            invariant
                self.entries.wf(),
                self.capacity == old(self).capacity,
                all.len() >= self.entries.spec_len(),
                self.entries.keys() == all.subrange(
                    all.len() - self.entries.spec_len(),
                    all.len() as int,
                ),
                evicted@.len() + self.entries.spec_len() == all.len(),
                self.entries.spec_len() < all.len() ==> self.entries.spec_len() >= self.capacity,
                old(self).entries.spec_len() <= self.capacity,
                all == after_upsert.keys(),
                after_upsert.wf(),
                forall|o: Seq<char>|
                    self.entries.keys().contains(o) ==> self.entries.spec_get(o)
                        == after_upsert.spec_get(o),
            decreases self.entries.spec_len(),
        {
            let (k, _) = self.entries.pop_oldest();
            proof {
                assert(self.entries.keys() =~= all.subrange(
                    all.len() - self.entries.spec_len(),
                    all.len() as int,
                ));
                assert forall|o: Seq<char>| self.entries.keys().contains(o) implies self.entries.spec_get(
                    o,
                ) == after_upsert.spec_get(o) by {
                    let j = self.entries.keys().index_of(o);
                    assert(self.entries.keys()[j] == o);
                    assert(o != k@);
                }
            }
            evicted.push(k);
        }
        proof {
            if self.entries.spec_len() < all.len() {
                assert(self.entries.spec_len() == self.capacity);
            }
            assert(self.entries.keys() =~= keep_newest(all, self.capacity as nat)) by {
                if all.len() <= self.capacity {
                    assert(all.subrange(0, all.len() as int) =~= all);
                }
            }
            if self.capacity > 0 {
                if old(self).keys().contains(id_view) {
                    assert(self.entries.keys() =~= all);
                    assert(self.entries.keys().contains(id_view));
                } else {
                    assert(all.last() == id_view);
                    assert(self.entries.keys().last() == id_view);
                    assert(self.entries.keys().contains(id_view));
                }
            }
        }
        evicted
    }

    /// Drops `id` from the cache, if it is there.
    pub fn remove(&mut self, id: &str) -> (r: Option<H>)
        requires
            old(self).wf(),
        ensures
            final(self).wf(),
            final(self).spec_capacity() == old(self).spec_capacity(),
            r == old(self).spec_get(id@),
            !final(self).keys().contains(id@),
            forall|o: Seq<char>| o != id@ ==> final(self).spec_get(o) == old(self).spec_get(o),
    {
        self.entries.remove(id)
    }
}

/// The state a session resumes from, given what the store returned for `id`:
/// a session that the store does not hold is not found, which is an `Agent`
/// error and never an empty new session.
pub fn session_from_store(id: &str, loaded: Option<AgentState>) -> (r: Result<
    AgentState,
    OpenAIAgentError,
>)
    ensures
        loaded matches Some(s) ==> r == Ok::<AgentState, OpenAIAgentError>(s),
        loaded is None ==> (r matches Err(OpenAIAgentError::Agent(m)) && m@ == "Agent not found: "@
            + id@),
{
    match loaded {
        Some(s) => Ok(s),
        None => {
            let head = String::from_str("Agent not found: ");
            Err(OpenAIAgentError::Agent(head.concat(id)))
        },
    }
}

} // verus!
