use vstd::prelude::*;

verus! {

/// The body answering a model-listing request.
#[derive(Debug, Clone, PartialEq, Default)]
pub struct ListModelsResponse {
    pub models: Vec<ModelInfo>,
}

/// One locally available model.
#[derive(Debug, Clone, PartialEq, Default)]
pub struct ModelInfo {
    pub name: String,
    pub size: u64,
    pub modified_at: String,
    pub digest: String,
    pub details: ModelDetails,
}

/// A model's format, family and quantization.
#[derive(Debug, Clone, PartialEq, Default)]
pub struct ModelDetails {
    pub format: String,
    pub family: String,
    pub families: Option<Vec<String>>,
    pub parameter_size: String,
    pub quantization_level: String,
}

/// The body of a show-model request.
#[derive(Debug, Clone, PartialEq, Default)]
pub struct ShowModelRequest {
    pub name: String,
}

/// The body of a pull-model request.
#[derive(Debug, Clone, PartialEq, Default)]
pub struct PullModelRequest {
    pub name: String,
}

/// One progress record of a streamed pull.
#[derive(Debug, Clone, PartialEq, Default)]
pub struct PullResponse {
    pub status: Option<String>,
    pub digest: Option<String>,
    pub total: Option<u64>,
    pub completed: Option<u64>,
}

/// One record of a streamed generation.
#[derive(Debug, Clone, PartialEq, Default)]
pub struct GenerateResponse {
    pub model: String,
    pub created_at: String,
    pub response: String,
    pub done: bool,
    pub context: Option<Vec<u32>>,
    pub total_duration: Option<u64>,
    pub load_duration: Option<u64>,
    pub prompt_eval_count: Option<u32>,
    pub prompt_eval_duration: Option<u64>,
    pub eval_count: Option<u32>,
    pub eval_duration: Option<u64>,
}

/// One progress record of a streamed model creation.
#[derive(Debug, Clone, PartialEq, Default)]
pub struct CreateResponse {
    pub status: Option<String>,
    pub digest: Option<String>,
    pub total: Option<u64>,
    pub completed: Option<u64>,
}

/// The body of a push-model request.
#[derive(Debug, Clone, PartialEq, Default)]
pub struct PushModelRequest {
    pub name: String,
}

/// One progress record of a streamed push.
#[derive(Debug, Clone, PartialEq, Default)]
pub struct PushResponse {
    pub status: Option<String>,
    pub digest: Option<String>,
    pub total: Option<u64>,
    pub completed: Option<u64>,
}

/// The body of a delete-model request.
#[derive(Debug, Clone, PartialEq, Default)]
pub struct DeleteModelRequest {
    pub name: String,
}

/// The input of an embedding request: one text or several.
#[derive(Debug, Clone, PartialEq)]
pub enum EmbedInput {
    Single(String),
    Multiple(Vec<String>),
}

impl Default for EmbedInput {
    /// One empty text.
    fn default() -> (r: Self)
        ensures
            r matches EmbedInput::Single(s) && s@ == Seq::<char>::empty(),
    {
        EmbedInput::Single(String::new())
    }
}

/// The body answering a running-models request.
#[derive(Debug, Clone, PartialEq, Default)]
pub struct ListRunningModelsResponse {
    pub models: Vec<RunningModelInfo>,
}

/// One loaded model and its expiry.
#[derive(Debug, Clone, PartialEq, Default)]
pub struct RunningModelInfo {
    pub name: String,
    pub model: String,
    pub size: u64,
    pub digest: String,
    pub details: ModelDetails,
    pub expires_at: String,
    pub size_vram: u64,
}

/// The body answering a version request.
#[derive(Debug, Clone, PartialEq, Default)]
pub struct VersionResponse {
    pub version: String,
}

} // verus!
