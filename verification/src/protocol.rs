//! The plugin-protocol values this crate produces: manifests, errors and
//! responses handed back to the gateway.

use vstd::prelude::*;

verus! {

/// The class of plugin a manifest declares.
#[derive(Debug, Clone, Copy, PartialEq, Eq)]
pub enum PluginClass {
    Backend,
}

/// Identity of a plugin entity as the gateway sees it at load time.
#[derive(Debug)]
pub struct PluginManifest {
    pub id: String,
    pub name: String,
    pub class: PluginClass,
}

/// Failures a backend reports to the gateway.
#[derive(Debug)]
pub enum BackendError {
    /// The binding's configuration, or a request derived from it, is unusable.
    InvalidSpec { message: String },
    /// No profile was registered under the requested binding name.
    ProfileNotFound { backend_name: String },
    /// The reply could not be put on the wire.
    Transport { message: String },
    /// A failure reported by the execution engine or the upstream endpoint.
    Upstream { message: String },
}

/// A completed, non-streamed backend reply.
#[derive(Debug)]
pub struct BackendResponse {
    pub payload: Vec<u8>,
    pub truncated: bool,
}

/// `InvalidSpec` carrying exactly `message`.
pub open spec fn is_invalid_spec(e: BackendError, message: Seq<char>) -> bool {
    e matches BackendError::InvalidSpec { message: m } && m@ == message
}

/// The error reported when the profile table can no longer be trusted because
/// a writer panicked while holding it.
pub fn profile_table_poisoned() -> (e: BackendError)
    ensures
        is_invalid_spec(e, "engine map poisoned"@),
{
    BackendError::InvalidSpec { message: String::from_str("engine map poisoned") }
}

} // verus!
