//! The per-entity evaluator: the primary façade binding an entity's
//! configuration to the record store, orchestrating aggregation, the
//! psychological blend, and the write of the blended result.

use crate::affect::{
    aggregate_arousal_spec, aggregate_emotion, aggregate_valence_spec, combine_emotions,
    combine_with_relationship, combine_without_relationship,
};
use crate::config::NpcConfig;
use crate::emotion::{EmotionPrediction, EmotionPredictorError};
use crate::store::{filter_by_source, records_of, MemoryRecord, MemoryStore};
use vstd::prelude::*;
use vstd::string::StringExecFns;

verus! {

/// Relies on uuid's `Uuid::new_v4` and its `Display` implementation: the
/// hyphenated rendering of a version-4 UUID is exactly 36 characters.
#[verifier::external_body]
fn new_uuid_string() -> (r: String)
    ensures
        r@.len() == 36,
{
    uuid::Uuid::new_v4().to_string()
}

/// The per-entity evaluator: an entity identifier, that entity's constant
/// configuration, and an optional default relationship source.  It holds
/// no records itself — every read goes back to the store.
#[derive(Debug)]
pub struct MemoryEmotionEvaluator {
    pub config: NpcConfig,
    pub source_id: Option<String>,
    pub npc_id: String,
}

/// The entity's current global emotion: the decay-weighted aggregate of
/// its full history over its personality baseline.
pub open spec fn current_emotion_spec(
    e: MemoryEmotionEvaluator,
    m: Map<Seq<char>, Seq<MemoryRecord>>,
) -> EmotionPrediction {
    let rs = records_of(m, e.npc_id@);
    EmotionPrediction {
        valence: aggregate_valence_spec(
            rs,
            e.config.personality.valence as int,
            e.config.memory.decay_rate as int,
        ) as i64,
        arousal: aggregate_arousal_spec(
            rs,
            e.config.personality.arousal as int,
            e.config.memory.decay_rate as int,
        ) as i64,
    }
}

/// The entity's current emotion towards one source: the same aggregate,
/// over the source-filtered history only.
pub open spec fn emotion_towards_spec(
    e: MemoryEmotionEvaluator,
    m: Map<Seq<char>, Seq<MemoryRecord>>,
    src: Seq<char>,
) -> EmotionPrediction {
    let rs = filter_by_source(records_of(m, e.npc_id@), src);
    EmotionPrediction {
        valence: aggregate_valence_spec(
            rs,
            e.config.personality.valence as int,
            e.config.memory.decay_rate as int,
        ) as i64,
        arousal: aggregate_arousal_spec(
            rs,
            e.config.personality.arousal as int,
            e.config.memory.decay_rate as int,
        ) as i64,
    }
}

/// The source an evaluation resolves: the explicit parameter if present,
/// else the evaluator's configured default, else none.
pub open spec fn resolved_source_spec(
    e: MemoryEmotionEvaluator,
    source_id: Option<&str>,
) -> Option<Seq<char>> {
    match source_id {
        Some(s) => Some(s@),
        None => match e.source_id {
            Some(s) => Some(s@),
            None => None,
        },
    }
}

/// The source identifier written into a new record: the resolved source,
/// or the sentinel for an unattributed interaction.
pub open spec fn effective_source_spec(src: Option<Seq<char>>) -> Seq<char> {
    match src {
        Some(s) => s,
        None => "unknown"@,
    }
}

/// The sample an evaluation returns: the fixed-weight blend of the fresh
/// stimulus with the global aggregate and, if a source resolved, the
/// relationship aggregate over that source's history.
pub open spec fn evaluate_result_spec(
    e: MemoryEmotionEvaluator,
    m: Map<Seq<char>, Seq<MemoryRecord>>,
    stimulus: EmotionPrediction,
    src: Option<Seq<char>>,
) -> EmotionPrediction {
    let glob = current_emotion_spec(e, m);
    match src {
        Some(sq) => {
            let rel = emotion_towards_spec(e, m, sq);
            EmotionPrediction {
                valence: combine_with_relationship(
                    rel.valence as int,
                    stimulus.valence as int,
                    glob.valence as int,
                ) as i64,
                arousal: combine_with_relationship(
                    rel.arousal as int,
                    stimulus.arousal as int,
                    glob.arousal as int,
                ) as i64,
            }
        },
        None => EmotionPrediction {
            valence: combine_without_relationship(
                stimulus.valence as int,
                glob.valence as int,
            ) as i64,
            arousal: combine_without_relationship(
                stimulus.arousal as int,
                glob.arousal as int,
            ) as i64,
        },
    }
}

impl Clone for MemoryEmotionEvaluator {
    fn clone(&self) -> (res: Self)
        ensures
            res == *self,
    {
        MemoryEmotionEvaluator {
            config: self.config.clone(),
            source_id: match &self.source_id {
                Some(s) => Some(s.clone()),
                None => None,
            },
            npc_id: self.npc_id.clone(),
        }
    }
}

impl MemoryEmotionEvaluator {
    /// The evaluator's configuration is usable by the aggregator: its
    /// personality baseline lies in the valid emotion range.
    pub open spec fn wf(self) -> bool {
        self.config.personality.valid()
    }

    /// Create an evaluator for a freshly generated entity identifier.
    pub fn new(config: NpcConfig, source_id: Option<String>) -> (r: Result<
        Self,
        EmotionPredictorError,
    >)
        ensures
            r matches Ok(e) && e.config == config && e.source_id == source_id && e.npc_id@.len()
                == 36,
    {
        let npc_id = new_uuid_string();
        Ok(Self { config, source_id, npc_id })
    }

    /// Create an evaluator bound to a caller-chosen entity identifier.
    pub fn new_with_id(config: NpcConfig, source_id: Option<String>, npc_id: String) -> (r: Result<
        Self,
        EmotionPredictorError,
    >)
        ensures
            r matches Ok(e) && e.config == config && e.source_id == source_id && e.npc_id
                == npc_id,
    {
        Ok(Self { config, source_id, npc_id })
    }

    /// The entity's current global emotion, aggregated over its full
    /// history; with an empty history, exactly the personality baseline.
    pub fn calculate_current_emotion(&self, store: &MemoryStore) -> (r: EmotionPrediction)
        requires
            self.wf(),
            store.wf(),
        ensures
            r == current_emotion_spec(*self, store@),
            r.valid(),
            records_of(store@, self.npc_id@).len() == 0 ==> r.valence
                == self.config.personality.valence && r.arousal == self.config.personality.arousal,
    {
        let records = store.get_all(self.npc_id.as_str());
        if records.is_empty() {
            return EmotionPrediction::new(
                self.config.personality.valence,
                self.config.personality.arousal,
            );
        }
        aggregate_emotion(
            &records,
            self.config.personality.valence,
            self.config.personality.arousal,
            self.config.memory.decay_rate,
        )
    }

    /// The entity's current emotion towards one source, aggregated over
    /// the source-filtered history only.
    pub fn calculate_current_emotion_towards_source(
        &self,
        store: &MemoryStore,
        source_id: &str,
    ) -> (r: EmotionPrediction)
        requires
            self.wf(),
            store.wf(),
        ensures
            r == emotion_towards_spec(*self, store@, source_id@),
            r.valid(),
    {
        let records = store.get_by_source(self.npc_id.as_str(), source_id);
        aggregate_emotion(
            &records,
            self.config.personality.valence,
            self.config.personality.arousal,
            self.config.memory.decay_rate,
        )
    }

    /// Append the blended outcome of an interaction to the entity's
    /// history as a fresh record.
    fn store_emotion_in_memory(
        &self,
        store: &mut MemoryStore,
        text: &str,
        final_emotion: &EmotionPrediction,
        past_time: u64,
        source_id: Option<&str>,
    )
        requires
            old(store).wf(),
            final_emotion.valid(),
        ensures
            final(store).wf(),
            ({
                let k = self.npc_id@;
                let rs = records_of(old(store)@, k);
                let rs2 = records_of(final(store)@, k);
                &&& final(store)@ == old(store)@.insert(k, rs2)
                &&& rs2.len() == rs.len() + 1
                &&& rs2.drop_last() == rs
                &&& rs2.last().valence == final_emotion.valence
                &&& rs2.last().arousal == final_emotion.arousal
                &&& rs2.last().past_time == past_time
                &&& rs2.last().text@ == text@
                &&& rs2.last().source_id@ == effective_source_spec(
                    resolved_source_spec(*self, source_id),
                )
                &&& rs2.last().id@.len() == 36
            }),
    {
        let effective_source: String = match source_id {
            Some(s) => s.to_owned(),
            None => match &self.source_id {
                Some(s) => s.clone(),
                None => "unknown".to_owned(),
            },
        };
        let record = MemoryRecord {
            id: new_uuid_string(),
            source_id: effective_source,
            text: text.to_owned(),
            valence: final_emotion.valence,
            arousal: final_emotion.arousal,
            past_time,
        };
        let ghost k = self.npc_id@;
        let ghost rs = records_of(old(store)@, k);
        store.insert(self.npc_id.as_str(), record);
        proof {
            let rs2 = records_of(store@, k);
            assert(rs2 == rs.push(record));
            assert(rs2.drop_last() =~= rs);
        }
    }

    /// Evaluate one interaction: aggregate the entity's global emotion
    /// and, if a source resolves, its relationship emotion; blend both
    /// with the fresh stimulus under the fixed psychological weights;
    /// persist the blended result as a new record; and return it.
    ///
    /// The returned sample is clamped into the valid range whatever the
    /// stimulus was.  The aggregates are read before the write, so the
    /// new record does not influence its own evaluation.
    pub fn evaluate_npc_emotion(
        &self,
        store: &mut MemoryStore,
        text: &str,
        predicted_emotion: &EmotionPrediction,
        past_time: u64,
        source_id: Option<&str>,
    ) -> (r: EmotionPrediction)
        requires
            self.wf(),
            old(store).wf(),
        ensures
            r == evaluate_result_spec(
                *self,
                old(store)@,
                *predicted_emotion,
                resolved_source_spec(*self, source_id),
            ),
            r.valid(),
            final(store).wf(),
            ({
                let k = self.npc_id@;
                let rs = records_of(old(store)@, k);
                let rs2 = records_of(final(store)@, k);
                &&& final(store)@ == old(store)@.insert(k, rs2)
                &&& rs2.len() == rs.len() + 1
                &&& rs2.drop_last() == rs
                &&& rs2.last().valence == r.valence
                &&& rs2.last().arousal == r.arousal
                &&& rs2.last().past_time == past_time
                &&& rs2.last().text@ == text@
                &&& rs2.last().source_id@ == effective_source_spec(
                    resolved_source_spec(*self, source_id),
                )
                &&& rs2.last().id@.len() == 36
            }),
    {
        let global_emotion = self.calculate_current_emotion(store);
        let resolved: Option<&str> = match source_id {
            Some(s) => Some(s),
            None => match &self.source_id {
                Some(s) => Some(s.as_str()),
                None => None,
            },
        };
        let source_emotion: Option<EmotionPrediction> = match resolved {
            Some(s) => Some(self.calculate_current_emotion_towards_source(store, s)),
            None => None,
        };
        let final_emotion = combine_emotions(predicted_emotion, source_emotion, &global_emotion);
        self.store_emotion_in_memory(store, text, &final_emotion, past_time, resolved);
        final_emotion
    }
}

/// The emotion towards one source only reflects records attributed to
/// that source: appending a record with any other source to the entity's
/// history leaves the source-specific emotion unchanged.
pub proof fn lemma_towards_ignores_other_sources(
    e: MemoryEmotionEvaluator,
    m: Map<Seq<char>, Seq<MemoryRecord>>,
    extra: MemoryRecord,
    src: Seq<char>,
)
    requires
        extra.source_id@ != src,
    ensures
        emotion_towards_spec(
            e,
            m.insert(e.npc_id@, records_of(m, e.npc_id@).push(extra)),
            src,
        ) == emotion_towards_spec(e, m, src),
{
    let rs = records_of(m, e.npc_id@);
    let m2 = m.insert(e.npc_id@, rs.push(extra));
    assert(records_of(m2, e.npc_id@) == rs.push(extra));
    crate::affect::lemma_other_source_does_not_influence(rs, extra, src);
}

/// Reading the current emotion is a pure read: it is a function of the
/// evaluator and the store alone, so two reads with no intervening write
/// yield identical samples.  Together with the contract of
/// [`MemoryEmotionEvaluator::calculate_current_emotion`] — which takes the
/// store immutably and returns exactly [`current_emotion_spec`] — this
/// pins the idempotence of the read path.
pub proof fn lemma_current_emotion_idempotent(
    e: MemoryEmotionEvaluator,
    m: Map<Seq<char>, Seq<MemoryRecord>>,
    r1: EmotionPrediction,
    r2: EmotionPrediction,
)
    requires
        r1 == current_emotion_spec(e, m),
        r2 == current_emotion_spec(e, m),
    ensures
        r1 == r2,
{
}

/// The evaluator an operation should run under: for an explicit source, a
/// fresh evaluator (with a newly generated entity identifier) carrying
/// that source as its default; otherwise a copy of the given one.
pub fn create_working_evaluator(
    evaluator: &MemoryEmotionEvaluator,
    source_id: Option<&str>,
) -> (r: Result<MemoryEmotionEvaluator, EmotionPredictorError>)
    ensures
        match source_id {
            Some(s) => r matches Ok(e) && e.config == evaluator.config && (e.source_id matches Some(
                es,
            ) && es@ == s@) && e.npc_id@.len() == 36,
            None => r matches Ok(e) && e == *evaluator,
        },
{
    match source_id {
        Some(source) => MemoryEmotionEvaluator::new(
            evaluator.config.clone(),
            Some(source.to_owned()),
        ),
        None => Ok(evaluator.clone()),
    }
}

} // verus!
