//! The two binding surfaces this plugin serves and the fixed texts that
//! belong to each.

use vstd::prelude::*;

verus! {

/// Which OpenAI-compatible ABI a binding speaks.
#[derive(Debug, Clone, Copy, PartialEq, Eq, Structural)]
pub enum BindingSurface {
    /// `/chat/completions`, registry kind `compat.chat`.
    Chat,
    /// `/embeddings`, registry kind `compat.embedding`.
    Embedding,
}

/// `prefix` followed by `detail`.
pub fn prefixed(prefix: &str, detail: &str) -> (m: String)
    ensures
        m@ == prefix@ + detail@,
{
    let mut m = String::from_str(prefix);
    m.append(detail);
    m
}

impl BindingSurface {
    pub open spec fn kind_text(self) -> Seq<char> {
        match self {
            BindingSurface::Chat => "compat.chat"@,
            BindingSurface::Embedding => "compat.embedding"@,
        }
    }

    pub open spec fn entity_id(self) -> Seq<char> {
        match self {
            BindingSurface::Chat => "dev.mcpg.backend.compat.chat"@,
            BindingSurface::Embedding => "dev.mcpg.backend.compat.embedding"@,
        }
    }

    pub open spec fn entity_name(self) -> Seq<char> {
        match self {
            BindingSurface::Chat => "OpenAI-Compatible Chat Completions"@,
            BindingSurface::Embedding => "OpenAI-Compatible Embeddings"@,
        }
    }

    /// Leads the message of a config document that does not deserialize.
    pub open spec fn spec_error_prefix(self) -> Seq<char> {
        match self {
            BindingSurface::Chat => "compat_chat spec: "@,
            BindingSurface::Embedding => "compat_embedding spec: "@,
        }
    }

    /// Leads the message of an adapter that cannot be built.
    pub open spec fn adapter_error_prefix(self) -> Seq<char> {
        match self {
            BindingSurface::Chat => "build compat adapter: "@,
            BindingSurface::Embedding => "build compat embedding adapter: "@,
        }
    }

    /// Leads the message of a reply that cannot be serialized.
    pub open spec fn serialize_error_prefix(self) -> Seq<char> {
        match self {
            BindingSurface::Chat => "serialize response: "@,
            BindingSurface::Embedding => "serialize embedding response: "@,
        }
    }

    /// The registry kind the gateway dispatches on.
    pub fn kind(self) -> (r: &'static str)
        ensures
            r@ == self.kind_text(),
    {
        match self {
            BindingSurface::Chat => "compat.chat",
            BindingSurface::Embedding => "compat.embedding",
        }
    }

    pub fn entity_id_str(self) -> (r: &'static str)
        ensures
            r@ == self.entity_id(),
    {
        match self {
            BindingSurface::Chat => "dev.mcpg.backend.compat.chat",
            BindingSurface::Embedding => "dev.mcpg.backend.compat.embedding",
        }
    }

    pub fn entity_name_str(self) -> (r: &'static str)
        ensures
            r@ == self.entity_name(),
    {
        match self {
            BindingSurface::Chat => "OpenAI-Compatible Chat Completions",
            BindingSurface::Embedding => "OpenAI-Compatible Embeddings",
        }
    }

    pub fn spec_error_prefix_str(self) -> (r: &'static str)
        ensures
            r@ == self.spec_error_prefix(),
    {
        match self {
            BindingSurface::Chat => "compat_chat spec: ",
            BindingSurface::Embedding => "compat_embedding spec: ",
        }
    }

    pub fn adapter_error_prefix_str(self) -> (r: &'static str)
        ensures
            r@ == self.adapter_error_prefix(),
    {
        match self {
            BindingSurface::Chat => "build compat adapter: ",
            BindingSurface::Embedding => "build compat embedding adapter: ",
        }
    }

    pub fn serialize_error_prefix_str(self) -> (r: &'static str)
        ensures
            r@ == self.serialize_error_prefix(),
    {
        match self {
            BindingSurface::Chat => "serialize response: ",
            BindingSurface::Embedding => "serialize embedding response: ",
        }
    }
}

} // verus!
