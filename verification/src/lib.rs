//! Core of a chat-completion protocol gateway: it reassembles newline-framed
//! event records from arbitrarily chunked byte streams, decodes each record
//! from the backend dialect, re-encodes it in the client dialect, and maps
//! model names and whole (non-streaming) responses between the two dialects.

pub mod bytes;
pub mod clock;
pub mod config;
pub mod convert;
pub mod decode;
pub mod error;
pub mod jsonval;
pub mod listing;
pub mod frame;
pub mod mistral;
pub mod model_map;
pub mod ollama;
pub mod relay;
pub mod render;
