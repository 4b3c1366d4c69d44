//! Backend-dialect data model: the chat-completion shapes spoken by the
//! backend. Sampling temperatures travel only at the HTTP edge, so the
//! request type here carries the integer-valued parameters.

use vstd::prelude::*;

use crate::ollama::OllamaMessage;

verus! {

/// Outbound backend request, after model-name mapping.
pub struct MistralChatRequest {
    pub model: String,
    pub messages: Vec<MistralMessage>,
    pub stream: Option<bool>,
    pub max_tokens: Option<i32>,
    pub random_seed: Option<i32>,
}

#[derive(Debug, Clone)]
pub struct MistralMessage {
    pub role: String,
    pub content: String,
}

impl From<OllamaMessage> for MistralMessage {
    fn from(msg: OllamaMessage) -> Self {
        MistralMessage { role: msg.role, content: msg.content }
    }
}

impl vstd::std_specs::convert::FromSpecImpl<OllamaMessage> for MistralMessage {
    open spec fn obeys_from_spec() -> bool {
        true
    }

    open spec fn from_spec(msg: OllamaMessage) -> MistralMessage {
        MistralMessage { role: msg.role, content: msg.content }
    }
}

/// Whole-body backend response.
pub struct MistralChatResponse {
    pub id: String,
    pub object: String,
    pub created: i64,
    pub model: String,
    pub choices: Vec<MistralChoice>,
    pub usage: Option<MistralUsage>,
}

pub struct MistralChoice {
    pub index: i32,
    pub message: Option<MistralMessage>,
    pub delta: Option<MistralMessage>,
    pub finish_reason: Option<String>,
}

#[derive(Debug, Clone, Copy)]
pub struct MistralUsage {
    pub prompt_tokens: i32,
    pub completion_tokens: i32,
    pub total_tokens: i32,
}

/// One streamed backend record, in the shape the backend documents for its
/// event-stream payloads.
pub struct MistralStreamChunk {
    pub id: String,
    pub object: String,
    pub created: i64,
    pub model: String,
    pub choices: Vec<MistralChoice>,
}

/// Backend model listing.
pub struct MistralModelsResponse {
    pub object: String,
    pub data: Vec<MistralModel>,
}

#[derive(Debug, Clone)]
pub struct MistralModel {
    pub id: String,
    pub object: String,
    pub created: i64,
    pub owned_by: String,
}

} // verus!
