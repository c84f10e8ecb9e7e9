//! Static descriptions of the external prediction model's files and
//! configuration.  Acquiring the files is the runtime's job; the
//! description itself is plain data with a pinned-down contract.

use vstd::prelude::*;
use vstd::string::StringExecFns;

verus! {

/// One downloadable file of a model distribution.
#[derive(Debug, Clone)]
pub struct ModelFile {
    pub filename: String,
    pub url: String,
    pub sha256: Option<String>,
    pub size_bytes: Option<u64>,
}

/// Shape and task metadata of a model.
#[derive(Debug, Clone)]
pub struct ModelConfig {
    pub model_type: String,
    pub task: String,
    pub languages: Vec<String>,
    pub input_dim: Option<usize>,
    pub output_dim: Option<usize>,
    pub max_sequence_length: usize,
}

/// A complete model distribution: name, version, repository and files.
#[derive(Debug, Clone)]
pub struct ModelInfo {
    pub name: String,
    pub version: String,
    pub huggingface_repo: String,
    pub files: Vec<ModelFile>,
    pub config: ModelConfig,
}

/// A minimal configuration shape used by setup tooling that only needs
/// the entity's name.
#[derive(Debug)]
pub struct SimpleConfig {
    pub identity: SimpleIdentity,
}

/// The identity part of [`SimpleConfig`].
#[derive(Debug)]
pub struct SimpleIdentity {
    pub name: String,
}

fn model_file(filename: &str, url: &str) -> (r: ModelFile)
    ensures
        r.filename@ == filename@,
        r.url@ == url@,
        r.sha256 is None,
        r.size_bytes is None,
{
    ModelFile { filename: filename.to_owned(), url: url.to_owned(), sha256: None, size_bytes: None }
}

/// The distribution of the valence/arousal prediction model: its
/// repository, the six files a runtime must fetch, and its input/output
/// shape.
pub fn create_valence_arousal_model_info() -> (r: ModelInfo)
    ensures
        r.name@ == "NPC-Valence-Arousal-Prediction-ONNX"@,
        r.version@ == "1.0.0"@,
        r.huggingface_repo@ == "Mavdol/NPC-Valence-Arousal-Prediction-ONNX"@,
        r.files@.len() == 6,
        r.files@[0].filename@ == "config.json"@,
        r.files@[1].filename@ == "model.onnx"@,
        r.files@[2].filename@ == "tokenizer.json"@,
        r.files@[3].filename@ == "tokenizer_config.json"@,
        r.files@[4].filename@ == "vocab.txt"@,
        r.files@[5].filename@ == "special_tokens_map.json"@,
        forall|i: int|
            0 <= i < 6 ==> (#[trigger] r.files@[i]).sha256 is None && r.files@[i].size_bytes
                is None,
        r.files@[0].url@
            == "https://huggingface.co/Mavdol/NPC-Valence-Arousal-Prediction-ONNX/resolve/main/config.json"@,
        r.files@[1].url@
            == "https://huggingface.co/Mavdol/NPC-Valence-Arousal-Prediction-ONNX/resolve/main/model.onnx"@,
        r.files@[2].url@
            == "https://huggingface.co/Mavdol/NPC-Valence-Arousal-Prediction-ONNX/resolve/main/tokenizer.json"@,
        r.files@[3].url@
            == "https://huggingface.co/Mavdol/NPC-Valence-Arousal-Prediction-ONNX/resolve/main/tokenizer_config.json"@,
        r.files@[4].url@
            == "https://huggingface.co/Mavdol/NPC-Valence-Arousal-Prediction-ONNX/resolve/main/special_tokens_map.json"@,
        r.files@[5].url@
            == "https://huggingface.co/Mavdol/NPC-Valence-Arousal-Prediction-ONNX/resolve/main/special_tokens_map.json"@,
        r.config.model_type@ == "distilbert"@,
        r.config.task@ == "valence-arousal-prediction"@,
        r.config.languages@.len() == 1,
        r.config.languages@[0]@ == "english"@,
        r.config.input_dim == Some(768usize),
        r.config.output_dim == Some(2usize),
        r.config.max_sequence_length == 512,
{
    let mut files: Vec<ModelFile> = Vec::new();
    files.push(
        model_file(
            "config.json",
            "https://huggingface.co/Mavdol/NPC-Valence-Arousal-Prediction-ONNX/resolve/main/config.json",
        ),
    );
    files.push(
        model_file(
            "model.onnx",
            "https://huggingface.co/Mavdol/NPC-Valence-Arousal-Prediction-ONNX/resolve/main/model.onnx",
        ),
    );
    files.push(
        model_file(
            "tokenizer.json",
            "https://huggingface.co/Mavdol/NPC-Valence-Arousal-Prediction-ONNX/resolve/main/tokenizer.json",
        ),
    );
    files.push(
        model_file(
            "tokenizer_config.json",
            "https://huggingface.co/Mavdol/NPC-Valence-Arousal-Prediction-ONNX/resolve/main/tokenizer_config.json",
        ),
    );
    files.push(
        model_file(
            "vocab.txt",
            "https://huggingface.co/Mavdol/NPC-Valence-Arousal-Prediction-ONNX/resolve/main/special_tokens_map.json",
        ),
    );
    files.push(
        model_file(
            "special_tokens_map.json",
            "https://huggingface.co/Mavdol/NPC-Valence-Arousal-Prediction-ONNX/resolve/main/special_tokens_map.json",
        ),
    );
    let mut languages: Vec<String> = Vec::new();
    languages.push(String::from_str("english"));
    ModelInfo {
        name: String::from_str("NPC-Valence-Arousal-Prediction-ONNX"),
        version: String::from_str("1.0.0"),
        huggingface_repo: String::from_str("Mavdol/NPC-Valence-Arousal-Prediction-ONNX"),
        files,
        config: ModelConfig {
            model_type: String::from_str("distilbert"),
            task: String::from_str("valence-arousal-prediction"),
            languages,
            input_dim: Some(768),
            output_dim: Some(2),
            max_sequence_length: 512,
        },
    }
}

} // verus!
