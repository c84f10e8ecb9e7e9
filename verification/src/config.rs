//! Per-entity configuration: identity, personality baseline and decay rate.

use crate::decimal::{dec_str_i64, i64_to_string};
use crate::fixed::SCALE;
use vstd::prelude::*;
use vstd::string::StringExecFns;

verus! {

/// Descriptive identity of an entity; carried for export only, never read
/// by the engine's numeric pipeline.
#[derive(Debug)]
pub struct Identity {
    pub name: String,
    pub background: String,
}

impl Identity {
    pub fn new(name: &str, background: &str) -> (r: Self)
        ensures
            r.name@ == name@,
            r.background@ == background@,
    {
        Identity { name: name.to_owned(), background: background.to_owned() }
    }
}

impl Clone for Identity {
    fn clone(&self) -> (res: Self)
        ensures
            res == *self,
    {
        Identity { name: self.name.clone(), background: self.background.clone() }
    }
}

impl Default for Identity {
    fn default() -> (r: Self)
        ensures
            r.name@.len() == 0,
            r.background@.len() == 0,
    {
        proof {
            reveal_strlit("");
        }
        Identity::new("", "")
    }
}

/// An entity's resting emotional disposition, in fixed-point millionths.
/// Valid baselines lie in `[-SCALE, SCALE]` on both components.
#[derive(Clone, Copy, Debug, PartialEq, Eq, Structural)]
pub struct PersonalityTraits {
    pub valence: i64,
    pub arousal: i64,
}

/// The message reported for a personality component outside the valid range.
pub open spec fn trait_range_msg(name: Seq<char>, value: int) -> Seq<char> {
    "Personality trait '"@ + name + "' has value "@ + dec_str_i64(value)
        + ", but must be between -1000000 and 1000000 millionths"@
}

impl PersonalityTraits {
    /// Both components lie in the valid emotion range.
    pub open spec fn valid(self) -> bool {
        &&& -SCALE <= self.valence <= SCALE
        &&& -SCALE <= self.arousal <= SCALE
    }

    pub fn new() -> (r: Self)
        ensures
            r.valence == 0,
            r.arousal == 0,
    {
        Self { valence: 0, arousal: 0 }
    }

    /// Check both components against the valid range, reporting the first
    /// offender by name.
    pub fn validate(&self) -> (r: Result<(), String>)
        ensures
            r is Ok <==> self.valid(),
            !(-SCALE <= self.valence <= SCALE) ==> (r matches Err(m) && m@ == trait_range_msg(
                "valence"@,
                self.valence as int,
            )),
            (-SCALE <= self.valence <= SCALE && !(-SCALE <= self.arousal <= SCALE)) ==> (
            r matches Err(m) && m@ == trait_range_msg("arousal"@, self.arousal as int)),
    {
        if self.valence < -SCALE || self.valence > SCALE {
            Err(Self::range_message("valence", self.valence))
        } else if self.arousal < -SCALE || self.arousal > SCALE {
            Err(Self::range_message("arousal", self.arousal))
        } else {
            Ok(())
        }
    }

    fn range_message(name: &str, value: i64) -> (r: String)
        ensures
            r@ == trait_range_msg(name@, value as int),
    {
        String::from_str("Personality trait '").concat(name).concat("' has value ").concat(
            i64_to_string(value).as_str(),
        ).concat(", but must be between -1000000 and 1000000 millionths")
    }
}

impl Default for PersonalityTraits {
    fn default() -> (r: Self)
        ensures
            r.valence == 0,
            r.arousal == 0,
    {
        PersonalityTraits::new()
    }
}

/// How quickly older records lose influence: a nonnegative decay rate in
/// fixed-point millionths per recency unit.
#[derive(Clone, Copy, Debug, PartialEq, Eq, Structural)]
pub struct MemoryConfig {
    pub decay_rate: u64,
}

impl MemoryConfig {
    pub fn new(decay_rate: u64) -> (r: Self)
        ensures
            r.decay_rate == decay_rate,
    {
        Self { decay_rate }
    }
}

impl Default for MemoryConfig {
    fn default() -> (r: Self)
        ensures
            r.decay_rate == 100_000,
    {
        Self { decay_rate: 100_000 }
    }
}

/// Complete per-entity configuration, immutable for the entity's lifetime.
#[derive(Debug)]
pub struct NpcConfig {
    pub identity: Identity,
    pub personality: PersonalityTraits,
    pub memory: MemoryConfig,
}

impl Clone for NpcConfig {
    fn clone(&self) -> (res: Self)
        ensures
            res == *self,
    {
        NpcConfig {
            identity: self.identity.clone(),
            personality: self.personality,
            memory: self.memory,
        }
    }
}

impl Default for NpcConfig {
    fn default() -> (r: Self)
        ensures
            r.identity.name@.len() == 0,
            r.identity.background@.len() == 0,
            r.personality.valence == 0,
            r.personality.arousal == 0,
            r.memory.decay_rate == 100_000,
    {
        NpcConfig {
            identity: Identity::default(),
            personality: PersonalityTraits::default(),
            memory: MemoryConfig::default(),
        }
    }
}

} // verus!
