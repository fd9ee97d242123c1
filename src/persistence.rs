//! Durable conversation state: identifiers, metadata and an in-memory store.
//!
//! Timestamps are milliseconds since the Unix epoch.

use crate::agent::{same_state, AgentState};
use crate::keyed::KeyedVec;
use crate::models::copy_opt_string;
use vstd::prelude::*;
use vstd::seq_lib::{to_multiset_build, to_multiset_insert};

verus! {

/// Identifier of a stored session.
pub type EntityId = String;

/// Relies on `uuid::Uuid::new_v4` and its hyphenated rendering: a fresh random
/// identifier of 36 characters.
#[verifier::external_body]
pub fn generate_id() -> (r: String)
    ensures
        r@.len() == 36,
{
    uuid::Uuid::new_v4().to_string()
}

/// Relies on `chrono::Utc::now` and `DateTime::timestamp_millis`: the current
/// time in milliseconds since the Unix epoch. Nothing is known of its value.
#[verifier::external_body]
pub(crate) fn now_millis() -> (r: i64) {
    chrono::Utc::now().timestamp_millis()
}

/// What a listing shows of a stored conversation.
#[derive(Debug)]
pub struct ConversationMetadata {
    /// Session identifier.
    pub id: String,
    /// Optional name given by the user.
    pub name: Option<String>,
    /// When the conversation was first stored.
    pub created_at: i64,
    /// When the conversation was last stored.
    pub updated_at: i64,
    /// Number of messages at the last store.
    pub message_count: usize,
    /// Tokens used at the last store.
    pub token_count: usize,
}

impl ConversationMetadata {
    /// A copy equal to `self`.
    pub fn duplicate(&self) -> (r: ConversationMetadata)
        ensures
            r == *self,
    {
        ConversationMetadata {
            id: self.id.clone(),
            name: copy_opt_string(&self.name),
            created_at: self.created_at,
            updated_at: self.updated_at,
            message_count: self.message_count,
            token_count: self.token_count,
        }
    }
}

/// The id recorded in a stored entry's metadata.
pub open spec fn entry_id(e: Option<(AgentState, ConversationMetadata)>) -> Seq<char> {
    match e {
        Some(p) => p.1.id@,
        None => Seq::empty(),
    }
}

/// The state held by a stored entry.
pub open spec fn entry_state(e: Option<(AgentState, ConversationMetadata)>) -> AgentState {
    match e {
        Some(p) => p.0,
        None => arbitrary(),
    }
}

/// The metadata held by a stored entry.
pub open spec fn entry_meta(e: Option<(AgentState, ConversationMetadata)>) -> ConversationMetadata {
    match e {
        Some(p) => p.1,
        None => arbitrary(),
    }
}

/// Most recently updated first.
pub open spec fn by_recency(s: Seq<ConversationMetadata>) -> bool {
    forall|i: int, j: int| 0 <= i < j < s.len() ==> s[i].updated_at >= s[j].updated_at
}

/// `all` lists exactly the entries of `metas`, most recently updated first.
pub open spec fn recency_order(all: Seq<ConversationMetadata>, metas: Seq<ConversationMetadata>) -> bool {
    &&& all.to_multiset() == metas.to_multiset()
    &&& by_recency(all)
}

/// The page of `all` that starts at `offset` and holds at most `limit` entries.
pub open spec fn page(all: Seq<ConversationMetadata>, limit: nat, offset: nat) -> Seq<
    ConversationMetadata,
> {
    if offset >= all.len() {
        Seq::empty()
    } else if offset + limit >= all.len() {
        all.subrange(offset as int, all.len() as int)
    } else {
        all.subrange(offset as int, (offset + limit) as int)
    }
}

/// A volatile store of conversations, keyed by session id.
pub struct MemoryStore {
    conversations: KeyedVec<(AgentState, ConversationMetadata)>,
}

impl Default for MemoryStore {
    fn default() -> (r: MemoryStore)
        ensures
            r.wf(),
            r.ids().len() == 0,
    {
        MemoryStore::new()
    }
}

impl MemoryStore {
    /// The stored state and metadata of `id`, if any.
    pub closed spec fn spec_entry(&self, id: Seq<char>) -> Option<(AgentState, ConversationMetadata)> {
        self.conversations.spec_get(id)
    }

    /// The ids of the stored conversations.
    pub closed spec fn ids(&self) -> Seq<Seq<char>> {
        self.conversations.keys()
    }

    /// The metadata of every stored conversation, in the store's order.
    pub closed spec fn all_metadata(&self) -> Seq<ConversationMetadata> {
        self.conversations.values().map_values(|e: (AgentState, ConversationMetadata)| e.1)
    }

    /// Ids are unique and each entry's metadata names its own id.
    pub closed spec fn wf(&self) -> bool {
        &&& self.conversations.wf()
        &&& forall|k: Seq<char>| #[trigger]
            self.conversations.has(k) ==> entry_id(self.conversations.spec_get(k)) == k
    }

    /// A full listing covers the stored ids: one metadata entry per id, each the
    /// metadata stored under that id.
    pub proof fn lemma_metadata_of_ids(&self)
        requires
            self.wf(),
        ensures
            self.all_metadata().len() == self.ids().len(),
            forall|i: int|
                0 <= i < self.ids().len() ==> self.spec_entry(#[trigger] self.ids()[i]) is Some
                    && self.all_metadata()[i] == entry_meta(self.spec_entry(self.ids()[i])),
    {
        self.conversations.lemma_shape();
    }

    /// An empty store.
    pub fn new() -> (r: MemoryStore)
        ensures
            r.wf(),
            r.ids().len() == 0,
            forall|id: Seq<char>| r.spec_entry(id) is None,
    {
        let r = MemoryStore { conversations: KeyedVec::new() };
        proof {
            r.conversations.lemma_get_iff_has();
            assert forall|id: Seq<char>| r.spec_entry(id) is None by {
                assert(!r.conversations.keys().contains(id));
            }
        }
        r
    }

    /// Stores `state` under `id` at time `now`, replacing any earlier transcript
    /// of `id` entirely. The metadata keeps its creation time and name when `id`
    /// was stored before, and records `now` as the update time.
    pub fn store_conversation_at(&mut self, id: &str, state: &AgentState, now: i64)
        requires
            old(self).wf(),
        ensures
            final(self).wf(),
            final(self).spec_entry(id@) matches Some(e) && {
                &&& same_state(e.0, *state)
                &&& e.1.id@ == id@
                &&& e.1.updated_at == now
                &&& e.1.message_count == state.messages@.len()
                &&& e.1.token_count == state.token_count
                &&& e.1.created_at == match old(self).spec_entry(id@) {
                    Some(p) => p.1.created_at,
                    None => now,
                }
                &&& e.1.name == match old(self).spec_entry(id@) {
                    Some(p) => p.1.name,
                    None => None,
                }
            },
            forall|o: Seq<char>| o != id@ ==> final(self).spec_entry(o) == old(self).spec_entry(o),
    {
        let (created_at, name) = match self.conversations.get(id) {
            Some(e) => (e.1.created_at, copy_opt_string(&e.1.name)),
            None => (now, None),
        };
        let meta = ConversationMetadata {
            id: id.to_string(),
            name,
            created_at,
            updated_at: now,
            message_count: state.messages.len(),
            token_count: state.token_count,
        };
        self.conversations.upsert(id.to_string(), (state.duplicate(), meta));
        proof {
            assert forall|k: Seq<char>| #[trigger]
                self.conversations.has(k) implies entry_id(self.conversations.spec_get(k)) == k by {
                if k != id@ {
                    assert(old(self).conversations.has(k)) by {
                        old(self).conversations.lemma_shape();
                        self.conversations.lemma_shape();
                        if !old(self).conversations.has(k) {
                            assert(old(self).conversations.spec_get(k) is None);
                            let j = self.conversations.keys().index_of(k);
                            assert(self.conversations.spec_get(self.conversations.keys()[j])
                                is Some);
                        }
                    }
                }
            }
        }
    }

    /// Stores `state` under `id`, stamped with the current time.
    pub fn store_conversation(&mut self, id: &str, state: &AgentState)
        requires
            old(self).wf(),
        ensures
            final(self).wf(),
            final(self).spec_entry(id@) matches Some(e) && {
                &&& same_state(e.0, *state)
                &&& e.1.id@ == id@
                &&& e.1.message_count == state.messages@.len()
                &&& e.1.token_count == state.token_count
                &&& e.1.created_at == match old(self).spec_entry(id@) {
                    Some(p) => p.1.created_at,
                    None => e.1.updated_at,
                }
                &&& e.1.name == match old(self).spec_entry(id@) {
                    Some(p) => p.1.name,
                    None => None,
                }
            },
            forall|o: Seq<char>| o != id@ ==> final(self).spec_entry(o) == old(self).spec_entry(o),
    {
        let now = now_millis();
        self.store_conversation_at(id, state, now);
    }

    /// The stored state of `id`, or nothing when `id` is not stored.
    pub fn get_conversation(&self, id: &str) -> (r: Option<AgentState>)
        requires
            self.wf(),
        ensures
            r is None <==> self.spec_entry(id@) is None,
            r matches Some(s) ==> same_state(s, entry_state(self.spec_entry(id@))),
    {
        match self.conversations.get(id) {
            Some(e) => Some(e.0.duplicate()),
            None => None,
        }
    }

    /// Removes `id` and its transcript; removing an id that is not stored does nothing.
    pub fn delete_conversation(&mut self, id: &str)
        requires
            old(self).wf(),
        ensures
            final(self).wf(),
            final(self).spec_entry(id@) is None,
            !final(self).ids().contains(id@),
            forall|o: Seq<char>| o != id@ ==> final(self).spec_entry(o) == old(self).spec_entry(o),
    {
        let _ = self.conversations.remove(id);
        proof {
            self.conversations.lemma_get_iff_has();
            old(self).conversations.lemma_get_iff_has();
            self.conversations.lemma_shape();
            assert forall|k: Seq<char>| #[trigger]
                self.conversations.has(k) implies entry_id(self.conversations.spec_get(k)) == k by {
                let j = self.conversations.keys().index_of(k);
                assert(self.conversations.spec_get(self.conversations.keys()[j]) is Some);
                old(self).conversations.lemma_shape();
                if !old(self).conversations.has(k) {
                    assert(old(self).conversations.spec_get(k) is None);
                }
            }
        }
    }

    /// The metadata of every stored conversation, most recently updated first.
    pub fn metadata_by_recency(&self) -> (r: Vec<ConversationMetadata>)
        requires
            self.wf(),
        ensures
            recency_order(r@, self.all_metadata()),
            forall|i: int| 0 <= i < r@.len() ==> self.ids().contains(#[trigger] r@[i].id@),
    {
        let mut r: Vec<ConversationMetadata> = Vec::new();
        let n = self.conversations.len();
        let mut i: usize = 0;
        proof {
            self.conversations.lemma_shape();
            assert(r@ =~= self.all_metadata().subrange(0, 0));
        }
        while i < n
            invariant
                n == self.conversations.spec_len(),
                i <= n,
                self.wf(),
                self.conversations.keys().len() == self.conversations.values().len(),
                forall|j: int|
                    0 <= j < n ==> #[trigger] self.conversations.spec_get(
                        self.conversations.keys()[j],
                    ) == Some(self.conversations.values()[j]),
                self.all_metadata().len() == n,
                r@.to_multiset() == self.all_metadata().subrange(0, i as int).to_multiset(),
                by_recency(r@),
                forall|j: int| 0 <= j < r@.len() ==> self.ids().contains(#[trigger] r@[j].id@),
            decreases n - i,
        {
            let (key, e) = self.conversations.entry_at(i);
            let m = e.1.duplicate();
            proof {
                assert(self.conversations.has(key@));
                assert(m.id@ == key@);
                assert(self.all_metadata()[i as int] == m);
                assert(self.all_metadata().subrange(0, i + 1) =~= self.all_metadata().subrange(
                    0,
                    i as int,
                ).push(m));
            }
            let mut pos: usize = 0;
            while pos < r.len() && r[pos].updated_at >= m.updated_at
                invariant
                    pos <= r@.len(),
                    forall|j: int| 0 <= j < pos ==> r@[j].updated_at >= m.updated_at,
                decreases r@.len() - pos,
            {
                pos = pos + 1;
            }
            let ghost before = r@;
            r.insert(pos, m);
            proof {
                assert(r@ == before.insert(pos as int, m));
                to_multiset_insert(before, pos as int, m);
                let sub = self.all_metadata().subrange(0, i as int);
                to_multiset_build(sub, m);
                assert forall|a: int, b: int| 0 <= a < b < r@.len() implies r@[a].updated_at
                    >= r@[b].updated_at by {
                    if pos < before.len() {
                        assert(before[pos as int].updated_at < m.updated_at);
                    }
                    if b < pos {
                        assert(r@[a] == before[a] && r@[b] == before[b]);
                    } else if b == pos {
                        assert(r@[a] == before[a]);
                    } else if a == pos {
                        assert(r@[b] == before[b - 1]);
                        assert(before[pos as int].updated_at >= before[b - 1].updated_at || b - 1
                            == pos);
                    } else if a < pos {
                        assert(r@[a] == before[a] && r@[b] == before[b - 1]);
                    } else {
                        assert(r@[a] == before[a - 1] && r@[b] == before[b - 1]);
                    }
                }
                assert forall|j: int| 0 <= j < r@.len() implies self.ids().contains(
                    #[trigger] r@[j].id@,
                ) by {
                    if j < pos {
                        assert(r@[j] == before[j]);
                    } else if j > pos {
                        assert(r@[j] == before[j - 1]);
                    } else {
                        assert(self.conversations.keys()[i as int] == key@);
                    }
                }
            }
            i = i + 1;
        }
        proof {
            assert(self.all_metadata().subrange(0, n as int) =~= self.all_metadata());
        }
        r
    }

    /// A page of the stored conversations' metadata, most recently updated
    /// first: at most `limit` entries after skipping `offset`. An offset past the
    /// end gives an empty page.
    pub fn list_conversations(&self, limit: usize, offset: usize) -> (r: Vec<ConversationMetadata>)
        requires
            self.wf(),
        ensures
            exists|all: Seq<ConversationMetadata>|
                recency_order(all, self.all_metadata()) && r@ == page(
                    all,
                    limit as nat,
                    offset as nat,
                ),
            offset >= self.ids().len() ==> r@.len() == 0,
            forall|i: int| 0 <= i < r@.len() ==> self.ids().contains(#[trigger] r@[i].id@),
    {
        let all = self.metadata_by_recency();
        let ghost all_view = all@;
        let mut r: Vec<ConversationMetadata> = Vec::new();
        let n = all.len();
        proof {
            assert(all_view.len() == self.all_metadata().len()) by {
                assert(all_view.to_multiset().len() == self.all_metadata().to_multiset().len());
                all_view.to_multiset_ensures();
                self.all_metadata().to_multiset_ensures();
            }
            self.conversations.lemma_shape();
        }
        if offset >= n {
            return r;
        }
        let end = if limit >= n - offset {
            n
        } else {
            offset + limit
        };
        let mut i: usize = offset;
        while i < end
            invariant
                offset <= i <= end <= n,
                n == all_view.len(),
                all@ == all_view,
                r@ == all_view.subrange(offset as int, i as int),
            decreases end - i,
        {
            r.push(all[i].duplicate());
            proof {
                assert(r@ =~= all_view.subrange(offset as int, i + 1));
            }
            i = i + 1;
        }
        proof {
            assert(r@ == page(all_view, limit as nat, offset as nat));
            assert forall|j: int| 0 <= j < r@.len() implies self.ids().contains(
                #[trigger] r@[j].id@,
            ) by {
                assert(r@[j] == all_view[offset + j]);
            }
        }
        r
    }
}

/// Storing a state and loading it back gives the same transcript and token
/// count: `stored` is what the store holds for `id` after storing `s`, and
/// `loaded` is what loading `id` returned.
pub proof fn lemma_store_load_round_trip(
    store: MemoryStore,
    id: Seq<char>,
    s: AgentState,
    loaded: AgentState,
)
    requires
        store.spec_entry(id) matches Some(e) && same_state(e.0, s),
        same_state(loaded, entry_state(store.spec_entry(id))),
    ensures
        crate::models::message_views(loaded.messages@) == crate::models::message_views(
            s.messages@,
        ),
        loaded.token_count == s.token_count,
{
}

} // verus!
