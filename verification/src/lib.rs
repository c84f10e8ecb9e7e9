//! Weighted affective memory engine.
//!
//! Tracks a per-entity emotional state derived from a history of interaction
//! records.  Each record carries a valence/arousal pair, a relationship
//! source, and a recency measure; the engine aggregates a history into a
//! decay-weighted baseline, blends it with a fresh stimulus using fixed
//! psychological weights, and appends the blended result as a new record.
//!
//! All emotion values are fixed-point numbers in millionths of a unit
//! ([`fixed::SCALE`]), so the whole numeric pipeline is exact integer
//! arithmetic with fully specified semantics.

pub mod affect;
pub mod config;
pub mod decimal;
pub mod emotion;
pub mod evaluator;
pub mod fixed;
pub mod model_info;
pub mod service;
pub mod session;
pub mod store;
pub mod test_support;

pub use affect::{aggregate_emotion, combine_emotions};
pub use config::{Identity, MemoryConfig, NpcConfig, PersonalityTraits};
pub use evaluator::{create_working_evaluator, MemoryEmotionEvaluator};
pub use emotion::{EmotionPrediction, EmotionPredictorError};
pub use fixed::SCALE;
pub use model_info::{create_valence_arousal_model_info, ModelConfig, ModelFile, ModelInfo, SimpleConfig, SimpleIdentity};
pub use service::{clear_memory, validate_config_json, validate_memory_json};
pub use session::{SessionError, SessionRegistry};
pub use store::{ImportError, MemoryRecord, MemoryStore};
pub use test_support::{MemoryTestHelpers, TestMemoryData};
