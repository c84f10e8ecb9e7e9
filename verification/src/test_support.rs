//! Fixture data and helpers shared by the library's test suites: sample
//! record sets, record validation helpers, and deterministic test entity
//! identifiers.

use crate::decimal::{dec_str_i64, dec_str_u64, i64_to_string, u64_to_string};
use crate::emotion::EmotionPrediction;
use crate::fixed::{clamp_unit, clamp_unit_i128, SCALE};
use crate::store::{records_of, ImportError, MemoryRecord, MemoryStore};
use vstd::prelude::*;
use vstd::string::StringExecFns;

verus! {

/// The four-record sample history: two sources, mixed emotions, strictly
/// increasing recency.
pub open spec fn is_sample_records(rs: Seq<MemoryRecord>) -> bool {
    &&& rs.len() == 4
    &&& rs[0].id@ == "memory-1"@ && rs[0].source_id@ == "source-1"@ && rs[0].text@
        == "Happy conversation"@ && rs[0].valence == 800_000 && rs[0].arousal == 600_000
        && rs[0].past_time == 1000
    &&& rs[1].id@ == "memory-2"@ && rs[1].source_id@ == "source-1"@ && rs[1].text@
        == "Sad conversation"@ && rs[1].valence == -600_000 && rs[1].arousal == -300_000
        && rs[1].past_time == 2000
    &&& rs[2].id@ == "memory-3"@ && rs[2].source_id@ == "source-2"@ && rs[2].text@
        == "Angry conversation"@ && rs[2].valence == -700_000 && rs[2].arousal == 800_000
        && rs[2].past_time == 3000
    &&& rs[3].id@ == "memory-4"@ && rs[3].source_id@ == "source-2"@ && rs[3].text@
        == "Neutral conversation"@ && rs[3].valence == 0 && rs[3].arousal == 0 && rs[3].past_time
        == 4000
}

fn make_record(
    id: &str,
    source_id: &str,
    text: &str,
    valence: i64,
    arousal: i64,
    past_time: u64,
) -> (r: MemoryRecord)
    ensures
        r.id@ == id@,
        r.source_id@ == source_id@,
        r.text@ == text@,
        r.valence == valence,
        r.arousal == arousal,
        r.past_time == past_time,
{
    MemoryRecord {
        id: id.to_owned(),
        source_id: source_id.to_owned(),
        text: text.to_owned(),
        valence,
        arousal,
        past_time,
    }
}

/// Canned records for exercising the store and the aggregator.
pub struct TestMemoryData;

impl TestMemoryData {
    /// Four records across two sources, all valid for import.
    pub fn sample_memory_records() -> (r: Vec<MemoryRecord>)
        ensures
            is_sample_records(r@),
            forall|i: int| 0 <= i < r@.len() ==> (#[trigger] r@[i]).import_valid(),
    {
        let mut r: Vec<MemoryRecord> = Vec::new();
        r.push(make_record("memory-1", "source-1", "Happy conversation", 800_000, 600_000, 1000));
        r.push(make_record("memory-2", "source-1", "Sad conversation", -600_000, -300_000, 2000));
        r.push(make_record("memory-3", "source-2", "Angry conversation", -700_000, 800_000, 3000));
        r.push(make_record("memory-4", "source-2", "Neutral conversation", 0, 0, 4000));
        proof {
            reveal_strlit("memory-1");
            reveal_strlit("memory-2");
            reveal_strlit("memory-3");
            reveal_strlit("memory-4");
        }
        r
    }

    /// A strongly positive record attributed to a friend.
    pub fn happy_memory_record() -> (r: MemoryRecord)
        ensures
            r.id@ == "happy-1"@,
            r.source_id@ == "friend"@,
            r.text@ == "We had such a great time together!"@,
            r.valence == 900_000,
            r.arousal == 700_000,
            r.past_time == 500,
            r.import_valid(),
    {
        let r = make_record(
            "happy-1",
            "friend",
            "We had such a great time together!",
            900_000,
            700_000,
            500,
        );
        proof {
            reveal_strlit("happy-1");
        }
        r
    }

    /// A strongly negative, low-arousal record attributed to a friend.
    pub fn sad_memory_record() -> (r: MemoryRecord)
        ensures
            r.id@ == "sad-1"@,
            r.source_id@ == "friend"@,
            r.text@ == "I'm really disappointed about what happened"@,
            r.valence == -800_000,
            r.arousal == -200_000,
            r.past_time == 1500,
            r.import_valid(),
    {
        let r = make_record(
            "sad-1",
            "friend",
            "I'm really disappointed about what happened",
            -800_000,
            -200_000,
            1500,
        );
        proof {
            reveal_strlit("sad-1");
        }
        r
    }

    /// A hostile, high-arousal record attributed to an enemy.
    pub fn angry_memory_record() -> (r: MemoryRecord)
        ensures
            r.id@ == "angry-1"@,
            r.source_id@ == "enemy"@,
            r.text@ == "That was completely unfair and wrong!"@,
            r.valence == -900_000,
            r.arousal == 900_000,
            r.past_time == 800,
            r.import_valid(),
    {
        let r = make_record(
            "angry-1",
            "enemy",
            "That was completely unfair and wrong!",
            -900_000,
            900_000,
            800,
        );
        proof {
            reveal_strlit("angry-1");
        }
        r
    }

    /// A neutral record attributed to a stranger.
    pub fn neutral_memory_record() -> (r: MemoryRecord)
        ensures
            r.id@ == "neutral-1"@,
            r.source_id@ == "stranger"@,
            r.text@ == "The weather is nice today"@,
            r.valence == 0,
            r.arousal == 0,
            r.past_time == 2000,
            r.import_valid(),
    {
        let r = make_record("neutral-1", "stranger", "The weather is nice today", 0, 0, 2000);
        proof {
            reveal_strlit("neutral-1");
        }
        r
    }

    /// A mildly positive, low-arousal combined sample.
    pub fn expected_combined_emotion() -> (r: EmotionPrediction)
        ensures
            r.valence == 200_000,
            r.arousal == 100_000,
    {
        EmotionPrediction::new(200_000, 100_000)
    }

    /// A moderately positive source-specific sample.
    pub fn expected_source_emotion() -> (r: EmotionPrediction)
        ensures
            r.valence == 500_000,
            r.arousal == 300_000,
    {
        EmotionPrediction::new(500_000, 300_000)
    }
}

/// Helpers for setting test stores up and validating records by hand.
pub struct MemoryTestHelpers;

impl MemoryTestHelpers {
    /// The fixed entity identifier most tests share.
    pub fn test_npc_id() -> (r: String)
        ensures
            r@ == "test-npc-12345"@,
    {
        String::from_str("test-npc-12345")
    }

    /// `count` distinct entity identifiers, numbered from zero.
    pub fn test_npc_ids(count: usize) -> (r: Vec<String>)
        ensures
            r@.len() == count,
            forall|i: int|
                0 <= i < count ==> (#[trigger] r@[i])@ == "test-npc-"@ + dec_str_u64(i),
    {
        let mut r: Vec<String> = Vec::new();
        let mut i: usize = 0;
        while i < count
            invariant
                i <= count,
                r@.len() == i,
                forall|j: int|
                    0 <= j < i ==> (#[trigger] r@[j])@ == "test-npc-"@ + dec_str_u64(j),
            decreases count - i,
        {
            r.push(String::from_str("test-npc-").concat(u64_to_string(i as u64).as_str()));
            i = i + 1;
        }
        r
    }

    /// Empty a test entity's history.
    pub fn clear_test_npc_memory(store: &mut MemoryStore, npc_id: &str)
        requires
            old(store).wf(),
        ensures
            final(store).wf(),
            records_of(final(store)@, npc_id@).len() == 0,
            final(store)@ == if old(store)@.contains_key(npc_id@) {
                old(store)@.insert(npc_id@, Seq::<MemoryRecord>::empty())
            } else {
                old(store)@
            },
    {
        store.clear(npc_id);
    }

    /// Clear a test entity and import the four-record sample history.
    pub fn setup_test_memories(store: &mut MemoryStore, npc_id: &str) -> (r: Result<
        (),
        ImportError,
    >)
        requires
            old(store).wf(),
        ensures
            final(store).wf(),
            r is Ok,
            is_sample_records(records_of(final(store)@, npc_id@)),
            final(store)@ == old(store)@.insert(npc_id@, records_of(final(store)@, npc_id@)),
    {
        Self::clear_test_npc_memory(store, npc_id);
        let records = TestMemoryData::sample_memory_records();
        store.import(npc_id, records)
    }

    /// Check one record against the import rules, reporting the offending
    /// field.
    pub fn validate_memory_record(record: &MemoryRecord) -> (r: Result<(), String>)
        ensures
            r is Ok <==> record.import_valid(),
            record.id@.len() == 0 ==> (r matches Err(m) && m@
                == "Memory record ID cannot be empty"@),
            (record.id@.len() > 0 && !(-SCALE <= record.valence <= SCALE)) ==> (r matches Err(m)
                && m@ == "Invalid valence: "@ + dec_str_i64(record.valence as int)
                + " millionths (must be between -1000000 and 1000000)"@),
            (record.id@.len() > 0 && -SCALE <= record.valence <= SCALE && !(-SCALE
                <= record.arousal <= SCALE)) ==> (r matches Err(m) && m@ == "Invalid arousal: "@
                + dec_str_i64(record.arousal as int)
                + " millionths (must be between -1000000 and 1000000)"@),
    {
        if record.id.as_str().is_empty() {
            Err(String::from_str("Memory record ID cannot be empty"))
        } else if record.valence < -SCALE || record.valence > SCALE {
            Err(
                String::from_str("Invalid valence: ").concat(
                    i64_to_string(record.valence).as_str(),
                ).concat(" millionths (must be between -1000000 and 1000000)"),
            )
        } else if record.arousal < -SCALE || record.arousal > SCALE {
            Err(
                String::from_str("Invalid arousal: ").concat(
                    i64_to_string(record.arousal).as_str(),
                ).concat(" millionths (must be between -1000000 and 1000000)"),
            )
        } else {
            Ok(())
        }
    }

    /// Build a record with the emotion components clamped into range; the
    /// identifier must still be non-empty.
    pub fn create_valid_memory_record(
        id: &str,
        source_id: &str,
        text: &str,
        valence: i64,
        arousal: i64,
        past_time: u64,
    ) -> (r: Result<MemoryRecord, String>)
        ensures
            r is Ok <==> id@.len() > 0,
            r matches Ok(rec) ==> rec.id@ == id@ && rec.source_id@ == source_id@ && rec.text@
                == text@ && rec.valence == clamp_unit(valence as int) && rec.arousal == clamp_unit(
                arousal as int,
            ) && rec.past_time == past_time && rec.import_valid(),
            id@.len() == 0 ==> (r matches Err(m) && m@ == "Memory record ID cannot be empty"@),
    {
        let record = make_record(
            id,
            source_id,
            text,
            clamp_unit_i128(valence as i128),
            clamp_unit_i128(arousal as i128),
            past_time,
        );
        match Self::validate_memory_record(&record) {
            Ok(()) => Ok(record),
            Err(m) => Err(m),
        }
    }
}

} // verus!
