//! OpenAI-compatible chat and embedding backend bindings.
//!
//! Targets endpoints that speak the OpenAI `/chat/completions` and
//! `/embeddings` ABIs but are not OpenAI itself. Operators must declare
//! `base_url`; `api_key` is optional, and an absent key means requests carry
//! no `Authorization` header.

pub mod call;
pub mod config;
pub mod embedding_plugin;
pub mod json;
pub mod laws;
pub mod plugin;
pub mod protocol;
pub mod registration;
pub mod registry;
pub mod surface;
pub mod text;

pub use config::{CompatChatSpec, CompatEmbeddingSpec};
pub use embedding_plugin::CompatEmbeddingPlugin;
pub use plugin::CompatChatPlugin;
