//! The session registry: the process-wide directory of live per-entity
//! evaluators, and the once-only installation state of the shared
//! predictor handle.
//!
//! The registry is an owned value; the runtime that shares it between
//! callers guards it with one lock covering the whole table, so under
//! that discipline the contracts here decide races: of two simultaneous
//! attempts to create the same session, the one serialized second finds
//! the entry and fails.

use crate::evaluator::MemoryEmotionEvaluator;
use crate::store::{str_eq, MemoryStore};
use vstd::prelude::*;
use vstd::string::StringExecFns;

verus! {

/// Failures of session management, as a closed taxonomy.
#[derive(Debug)]
pub enum SessionError {
    AlreadyExists { npc_id: String },
    NotFound { npc_id: String },
    ModelAlreadyInitialized,
    ModelNotInitialized,
}

impl SessionError {
    /// The rendered message for this failure.
    pub open spec fn message_spec(self) -> Seq<char> {
        match self {
            SessionError::AlreadyExists { npc_id } => "NPC session '"@ + npc_id@
                + "' already exists"@,
            SessionError::NotFound { npc_id } => "NPC session '"@ + npc_id@
                + "' not found. Call create_npc_session first."@,
            SessionError::ModelAlreadyInitialized => "Model already initialized"@,
            SessionError::ModelNotInitialized =>
                "Model not initialized. Call initialize_neural_matrix first."@,
        }
    }

    /// Render the failure as a human-readable message.
    pub fn message(&self) -> (r: String)
        ensures
            r@ == self.message_spec(),
    {
        match self {
            SessionError::AlreadyExists { npc_id } => String::from_str("NPC session '").concat(
                npc_id.as_str(),
            ).concat("' already exists"),
            SessionError::NotFound { npc_id } => String::from_str("NPC session '").concat(
                npc_id.as_str(),
            ).concat("' not found. Call create_npc_session first."),
            SessionError::ModelAlreadyInitialized => String::from_str("Model already initialized"),
            SessionError::ModelNotInitialized => String::from_str(
                "Model not initialized. Call initialize_neural_matrix first.",
            ),
        }
    }
}

struct SessionEntry {
    npc_id: String,
    evaluator: MemoryEmotionEvaluator,
}

/// The directory of live sessions, keyed by entity identifier, together
/// with the shared predictor's installation flag.
pub struct SessionRegistry {
    sessions: Vec<SessionEntry>,
    model_initialized: bool,
}

impl View for SessionRegistry {
    type V = Map<Seq<char>, MemoryEmotionEvaluator>;

    closed spec fn view(&self) -> Map<Seq<char>, MemoryEmotionEvaluator> {
        SessionRegistry::sessions_map(self.sessions@)
    }
}

impl SessionRegistry {
    spec fn sessions_map(s: Seq<SessionEntry>) -> Map<Seq<char>, MemoryEmotionEvaluator>
        decreases s.len(),
    {
        if s.len() == 0 {
            Map::empty()
        } else {
            Self::sessions_map(s.drop_last()).insert(s.last().npc_id@, s.last().evaluator)
        }
    }

    /// One live session per entity identifier.
    pub closed spec fn wf(&self) -> bool {
        forall|i: int, j: int|
            0 <= i < j < self.sessions@.len() ==> #[trigger] self.sessions@[i].npc_id@
                != #[trigger] self.sessions@[j].npc_id@
    }

    /// Whether the shared predictor handle has been installed.
    pub closed spec fn model_ready(&self) -> bool {
        self.model_initialized
    }

    spec fn unique_keys(s: Seq<SessionEntry>) -> bool {
        forall|i: int, j: int|
            0 <= i < j < s.len() ==> #[trigger] s[i].npc_id@ != #[trigger] s[j].npc_id@
    }

    proof fn lemma_sessions_map(s: Seq<SessionEntry>)
        requires
            Self::unique_keys(s),
        ensures
            forall|k: Seq<char>|
                #[trigger] Self::sessions_map(s).contains_key(k) <==> exists|i: int|
                    0 <= i < s.len() && #[trigger] s[i].npc_id@ == k,
            forall|i: int|
                0 <= i < s.len() ==> Self::sessions_map(s)[#[trigger] s[i].npc_id@]
                    == s[i].evaluator,
        decreases s.len(),
    {
        if s.len() > 0 {
            let s0 = s.drop_last();
            assert(Self::unique_keys(s0));
            Self::lemma_sessions_map(s0);
            assert forall|k: Seq<char>| #[trigger]
                Self::sessions_map(s).contains_key(k) implies exists|i: int|
                0 <= i < s.len() && #[trigger] s[i].npc_id@ == k by {
                if k == s.last().npc_id@ {
                    assert(s[s.len() - 1].npc_id@ == k);
                } else {
                    assert(Self::sessions_map(s0).contains_key(k));
                    let i = choose|i: int| 0 <= i < s0.len() && #[trigger] s0[i].npc_id@ == k;
                    assert(s[i].npc_id@ == k);
                }
            }
            assert forall|k: Seq<char>|
                (exists|i: int| 0 <= i < s.len() && #[trigger] s[i].npc_id@ == k) implies #[trigger]
                Self::sessions_map(s).contains_key(k) by {
                let i = choose|i: int| 0 <= i < s.len() && #[trigger] s[i].npc_id@ == k;
                if i < s.len() - 1 {
                    assert(s0[i].npc_id@ == k);
                }
            }
            assert forall|i: int|
                0 <= i < s.len() implies Self::sessions_map(s)[(#[trigger] s[i]).npc_id@]
                == s[i].evaluator by {
                if i < s.len() - 1 {
                    assert(s0[i].npc_id@ == s[i].npc_id@);
                    assert(s[i].npc_id@ != s.last().npc_id@);
                }
            }
        }
    }

    /// A fresh registry: no sessions, predictor not installed.
    pub fn new() -> (r: Self)
        ensures
            r@ == Map::<Seq<char>, MemoryEmotionEvaluator>::empty(),
            !r.model_ready(),
            r.wf(),
    {
        SessionRegistry { sessions: Vec::new(), model_initialized: false }
    }

    fn find_idx(&self, npc_id: &str) -> (r: Option<usize>)
        ensures
            match r {
                Some(i) => i < self.sessions@.len() && self.sessions@[i as int].npc_id@ == npc_id@,
                None => forall|i: int|
                    0 <= i < self.sessions@.len() ==> #[trigger] self.sessions@[i].npc_id@
                        != npc_id@,
            },
    {
        let mut i: usize = 0;
        while i < self.sessions.len()
            invariant
                i <= self.sessions@.len(),
                forall|j: int| 0 <= j < i ==> #[trigger] self.sessions@[j].npc_id@ != npc_id@,
            decreases self.sessions@.len() - i,
        {
            if str_eq(self.sessions[i].npc_id.as_str(), npc_id) {
                return Some(i);
            }
            i = i + 1;
        }
        None
    }

    /// Register a live session for an entity.  Fails — and changes
    /// nothing — if the entity already has one: there is no implicit
    /// overwrite, so of two racing attempts exactly one succeeds.
    pub fn create_npc_session(
        &mut self,
        npc_id: String,
        evaluator: MemoryEmotionEvaluator,
    ) -> (r: Result<(), SessionError>)
        requires
            old(self).wf(),
        ensures
            final(self).wf(),
            final(self).model_ready() == old(self).model_ready(),
            r is Ok <==> !old(self)@.contains_key(npc_id@),
            r is Ok ==> final(self)@ == old(self)@.insert(npc_id@, evaluator),
            r matches Err(e) ==> final(self)@ == old(self)@ && e == (SessionError::AlreadyExists {
                npc_id: npc_id,
            }),
    {
        proof {
            Self::lemma_sessions_map(self.sessions@);
        }
        match self.find_idx(npc_id.as_str()) {
            Some(_) => Err(SessionError::AlreadyExists { npc_id }),
            None => {
                let ghost s1 = self.sessions@;
                self.sessions.push(SessionEntry { npc_id, evaluator });
                proof {
                    let s2 = self.sessions@;
                    assert(s2.drop_last() =~= s1);
                    assert forall|a: int, b: int|
                        0 <= a < b < s2.len() implies (#[trigger] s2[a]).npc_id@ != (
                        #[trigger] s2[b]).npc_id@ by {
                        assert(s2[a] == s1[a]);
                        if b < s2.len() - 1 {
                            assert(s2[b] == s1[b]);
                        }
                    }
                }
                Ok(())
            },
        }
    }

    /// Tear a session down entirely: unregister the evaluator and purge
    /// the entity's record store history.  Fails — and changes nothing —
    /// if no session exists.
    pub fn remove_npc_session(&mut self, store: &mut MemoryStore, npc_id: &str) -> (r: Result<
        (),
        SessionError,
    >)
        requires
            old(self).wf(),
            old(store).wf(),
        ensures
            final(self).wf(),
            final(store).wf(),
            final(self).model_ready() == old(self).model_ready(),
            r is Ok <==> old(self)@.contains_key(npc_id@),
            r is Ok ==> final(self)@ == old(self)@.remove(npc_id@) && final(store)@ == old(
                store,
            )@.remove(npc_id@),
            r matches Err(e) ==> final(self)@ == old(self)@ && final(store)@ == old(store)@ && (
            e matches SessionError::NotFound { npc_id: n } && n@ == npc_id@),
    {
        proof {
            Self::lemma_sessions_map(self.sessions@);
        }
        match self.find_idx(npc_id) {
            None => Err(SessionError::NotFound { npc_id: npc_id.to_owned() }),
            Some(idx) => {
                let ghost s1 = self.sessions@;
                let _removed = self.sessions.remove(idx);
                store.remove_npc(npc_id);
                proof {
                    let s2 = self.sessions@;
                    s1.remove_ensures(idx as int);
                    assert forall|a: int, b: int|
                        0 <= a < b < s2.len() implies (#[trigger] s2[a]).npc_id@ != (
                        #[trigger] s2[b]).npc_id@ by {
                        let a1 = if a < idx { a } else { a + 1 };
                        let b1 = if b < idx { b } else { b + 1 };
                        assert(s2[a] == s1[a1]);
                        assert(s2[b] == s1[b1]);
                    }
                    Self::lemma_sessions_map(s2);
                    let m1 = Self::sessions_map(s1);
                    let m2 = Self::sessions_map(s2);
                    assert forall|k: Seq<char>| #[trigger]
                        m2.contains_key(k) implies m1.contains_key(k) && k != npc_id@ by {
                        let j = choose|j: int|
                            0 <= j < s2.len() && #[trigger] s2[j].npc_id@ == k;
                        let j1 = if j < idx { j } else { j + 1 };
                        assert(s2[j] == s1[j1]);
                        assert(s1[j1].npc_id@ == k);
                        if k == npc_id@ {
                            assert(s1[idx as int].npc_id@ == k);
                        }
                    }
                    assert forall|k: Seq<char>|
                        #[trigger] m1.contains_key(k) && k != npc_id@ implies m2.contains_key(
                        k,
                    ) by {
                        let j1 = choose|j: int|
                            0 <= j < s1.len() && #[trigger] s1[j].npc_id@ == k;
                        assert(j1 != idx);
                        let j = if j1 < idx { j1 } else { j1 - 1 };
                        assert(s2[j] == s1[j1]);
                        assert(s2[j].npc_id@ == k);
                    }
                    assert forall|k: Seq<char>| #[trigger] m2.contains_key(k) implies m2[k]
                        == m1[k] by {
                        let j = choose|j: int|
                            0 <= j < s2.len() && #[trigger] s2[j].npc_id@ == k;
                        let j1 = if j < idx { j } else { j + 1 };
                        assert(s2[j] == s1[j1]);
                        assert(m2[k] == s2[j].evaluator);
                        assert(m1[k] == s1[j1].evaluator);
                    }
                    assert(m2 =~= m1.remove(npc_id@));
                }
                Ok(())
            },
        }
    }

    /// Look a live session's evaluator up; callers that find none are
    /// told to create a session first.
    pub fn get_evaluator(&self, npc_id: &str) -> (r: Result<&MemoryEmotionEvaluator, SessionError>)
        requires
            self.wf(),
        ensures
            r is Ok <==> self@.contains_key(npc_id@),
            r matches Ok(e) ==> *e == self@[npc_id@],
            r matches Err(e) ==> e matches SessionError::NotFound { npc_id: n } && n@ == npc_id@,
    {
        proof {
            Self::lemma_sessions_map(self.sessions@);
        }
        match self.find_idx(npc_id) {
            Some(i) => Ok(&self.sessions[i].evaluator),
            None => Err(SessionError::NotFound { npc_id: npc_id.to_owned() }),
        }
    }

    /// Install the shared predictor handle, exactly once: a second call
    /// fails rather than silently replacing it.
    pub fn initialize_shared_model(&mut self) -> (r: Result<(), SessionError>)
        requires
            old(self).wf(),
        ensures
            final(self).wf(),
            final(self)@ == old(self)@,
            r is Ok <==> !old(self).model_ready(),
            r is Ok ==> final(self).model_ready(),
            r matches Err(e) ==> final(self).model_ready() == old(self).model_ready() && e == (
            SessionError::ModelAlreadyInitialized {  }),
    {
        if self.model_initialized {
            Err(SessionError::ModelAlreadyInitialized)
        } else {
            self.model_initialized = true;
            Ok(())
        }
    }
}

impl Default for SessionRegistry {
    fn default() -> (r: Self)
        ensures
            r@ == Map::<Seq<char>, MemoryEmotionEvaluator>::empty(),
            !r.model_ready(),
            r.wf(),
    {
        SessionRegistry::new()
    }
}

} // verus!
