//! Emotion samples and the error taxonomy of the prediction boundary.

use crate::fixed::SCALE;
use vstd::prelude::*;
use vstd::string::StringExecFns;

verus! {

/// A valence/arousal pair in fixed-point millionths.
///
/// A *final* sample — one handed back to a caller — always lies in
/// `[-SCALE, SCALE]` on both components; intermediate sums may leave that
/// range until the last clamping step.
#[derive(Clone, Copy, Debug, PartialEq, Eq, Structural)]
pub struct EmotionPrediction {
    pub valence: i64,
    pub arousal: i64,
}

impl EmotionPrediction {
    /// Both components lie in the valid emotion range.
    pub open spec fn valid(self) -> bool {
        &&& -SCALE <= self.valence <= SCALE
        &&& -SCALE <= self.arousal <= SCALE
    }

    pub fn new(valence: i64, arousal: i64) -> (r: Self)
        ensures
            r.valence == valence,
            r.arousal == arousal,
    {
        Self { valence, arousal }
    }

    pub fn values(&self) -> (r: (i64, i64))
        ensures
            r.0 == self.valence,
            r.1 == self.arousal,
    {
        (self.valence, self.arousal)
    }
}

/// Failures of the prediction boundary and of the operations around it.
///
/// The engine itself only ever constructs [`EmotionPredictorError::Inference`];
/// the other variants describe failures of the external predictor that the
/// surrounding runtime reports through the same taxonomy.
#[derive(Clone, Debug)]
pub enum EmotionPredictorError {
    Io(String),
    Tokenizer(String),
    ModelLoading(String),
    Inference(String),
    InvalidInput(String),
    OnnxRuntime(String),
    ArrayShape(String),
}

impl EmotionPredictorError {
    /// The rendered message: a fixed prefix naming the failure kind,
    /// followed by the detail text.
    pub open spec fn message_spec(self) -> Seq<char> {
        match self {
            EmotionPredictorError::Io(s) => "IO error: "@ + s@,
            EmotionPredictorError::Tokenizer(s) => "Tokenizer error: "@ + s@,
            EmotionPredictorError::ModelLoading(s) => "Model loading error: "@ + s@,
            EmotionPredictorError::Inference(s) => "Inference error: "@ + s@,
            EmotionPredictorError::InvalidInput(s) => "Invalid input: "@ + s@,
            EmotionPredictorError::OnnxRuntime(s) => "ONNX Runtime error: "@ + s@,
            EmotionPredictorError::ArrayShape(s) => "Array shape error: "@ + s@,
        }
    }

    /// Render the error as a human-readable message.
    pub fn message(&self) -> (r: String)
        ensures
            r@ == self.message_spec(),
    {
        match self {
            EmotionPredictorError::Io(s) => String::from_str("IO error: ").concat(s.as_str()),
            EmotionPredictorError::Tokenizer(s) => String::from_str("Tokenizer error: ").concat(
                s.as_str(),
            ),
            EmotionPredictorError::ModelLoading(s) => String::from_str(
                "Model loading error: ",
            ).concat(s.as_str()),
            EmotionPredictorError::Inference(s) => String::from_str("Inference error: ").concat(
                s.as_str(),
            ),
            EmotionPredictorError::InvalidInput(s) => String::from_str("Invalid input: ").concat(
                s.as_str(),
            ),
            EmotionPredictorError::OnnxRuntime(s) => String::from_str(
                "ONNX Runtime error: ",
            ).concat(s.as_str()),
            EmotionPredictorError::ArrayShape(s) => String::from_str(
                "Array shape error: ",
            ).concat(s.as_str()),
        }
    }
}

} // verus!
