//! Operator-facing config for the OpenAI-compatible bindings.

use vstd::prelude::*;

use crate::text::{is_blank, is_blank_str};

verus! {

/// A configuration problem found while validating a spec.
#[derive(Debug)]
pub enum ConfigError {
    InvalidSpec(String),
}

impl ConfigError {
    pub open spec fn text(self) -> Seq<char> {
        match self {
            ConfigError::InvalidSpec(m) => m@,
        }
    }

    /// The human-readable description of the problem.
    pub fn message(&self) -> (m: String)
        ensures
            m@ == self.text(),
    {
        match self {
            ConfigError::InvalidSpec(m) => m.clone(),
        }
    }
}

/// Reference to the API key as the operator declared it: a literal value, or
/// the placeholder the gateway substitutes at config load.
pub struct ApiKeyRef {
    pub reference: String,
}

/// How a chat binding treats the model's reply.
#[derive(Debug, Clone, Copy, PartialEq, Eq)]
pub enum ResponseFormatMode {
    /// Validate the reply against the binding's `output_schema`.
    JsonSchema,
    /// Wrap the reply as `{"text": ...}` and skip validation.
    Text,
}

/// The `response_format` block of a chat binding.
#[derive(Debug, Clone, Copy)]
pub struct ResponseFormatSpec {
    pub mode: ResponseFormatMode,
}

impl Default for ResponseFormatSpec {
    fn default() -> (r: Self)
        ensures
            r.mode == ResponseFormatMode::JsonSchema,
    {
        ResponseFormatSpec { mode: ResponseFormatMode::JsonSchema }
    }
}

/// The prompt templates of a chat binding.
#[derive(Debug)]
pub struct PromptSpec {
    pub system: String,
    pub user: String,
}

/// The provider-agnostic chat execution fields this binding reads.
#[derive(Debug)]
pub struct ChatExecutionSpec {
    pub model: String,
    pub timeout_ms: u64,
    pub connect_timeout_ms: u64,
    pub prompt: PromptSpec,
    pub response_format: ResponseFormatSpec,
}

/// The provider-agnostic embedding execution fields this binding reads.
#[derive(Debug)]
pub struct EmbeddingExecutionSpec {
    pub model: String,
    pub timeout_ms: u64,
    pub connect_timeout_ms: u64,
}

/// What `CompatChatSpec::validate` reports for a blank `base_url`.
pub open spec fn chat_base_url_required() -> Seq<char> {
    "compat_chat: base_url is required (operator must declare the endpoint URL up to but not including `/chat/completions`)"@
}

/// What `CompatEmbeddingSpec::validate` reports for a blank `base_url`.
pub open spec fn embedding_base_url_required() -> Seq<char> {
    "compat_embedding: base_url is required"@
}

/// Spec for `binding_type: compat_chat`.
///
/// `base_url` is required: this binding has no provider-specific default
/// URL. `api_key` is optional because many self-hosted endpoints accept any
/// or no key; when omitted, no `Authorization` header is sent.
pub struct CompatChatSpec {
    /// Base URL up to (but not including) `/chat/completions`.
    pub base_url: String,
    pub api_key: Option<ApiKeyRef>,
    pub chat: ChatExecutionSpec,
}

impl CompatChatSpec {
    /// Validates the spec. `execution` is the verdict of the provider-agnostic
    /// execution-spec validation, which is consulted only once `base_url` has
    /// been found present.
    pub fn validate(&self, execution: Result<(), ConfigError>) -> (r: Result<(), ConfigError>)
        ensures
            is_blank(self.base_url@) ==> (r matches Err(e) && e.text() == chat_base_url_required()),
            !is_blank(self.base_url@) ==> r == execution,
    {
        if is_blank_str(self.base_url.as_str()) {
            return Err(
                ConfigError::InvalidSpec(
                    String::from_str(
                        "compat_chat: base_url is required (operator must declare the endpoint URL up to but not including `/chat/completions`)",
                    ),
                ),
            );
        }
        execution
    }
}

/// Spec for `binding_type: compat_embedding`: `base_url` required, `api_key`
/// optional, plus the provider-agnostic embedding fields.
pub struct CompatEmbeddingSpec {
    pub base_url: String,
    pub api_key: Option<ApiKeyRef>,
    pub embedding: EmbeddingExecutionSpec,
}

impl CompatEmbeddingSpec {
    /// Validates the spec; `execution` is the verdict of the provider-agnostic
    /// embedding-spec validation, consulted once `base_url` is present.
    pub fn validate(&self, execution: Result<(), ConfigError>) -> (r: Result<(), ConfigError>)
        ensures
            is_blank(self.base_url@) ==> (r matches Err(e) && e.text()
                == embedding_base_url_required()),
            !is_blank(self.base_url@) ==> r == execution,
    {
        if is_blank_str(self.base_url.as_str()) {
            return Err(
                ConfigError::InvalidSpec(String::from_str("compat_embedding: base_url is required")),
            );
        }
        execution
    }
}

} // verus!
