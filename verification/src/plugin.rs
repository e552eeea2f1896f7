//! The OpenAI-compatible chat-completions backend (`kind: compat.chat`).

use vstd::prelude::*;

use crate::protocol::{is_invalid_spec, BackendError, PluginClass, PluginManifest};
use crate::call::{arguments_of, not_json_message, request_arguments};
use crate::json::{is_json_document, parsed_document};
use crate::registration::Registration;
use crate::registry::ProfileRegistry;
use crate::surface::BindingSurface;

verus! {

/// Chat bindings registered with this plugin, each under its binding name.
/// `E` is the execution engine the gateway builds for a binding.
pub struct CompatChatPlugin<E> {
    manifest: PluginManifest,
    engines: ProfileRegistry<E>,
}

impl<E> CompatChatPlugin<E> {
    #[verifier::type_invariant]
    closed spec fn manifest_is_fixed(self) -> bool {
        &&& self.manifest.id@ == BindingSurface::Chat.entity_id()
        &&& self.manifest.name@ == BindingSurface::Chat.entity_name()
        &&& self.manifest.class == PluginClass::Backend
    }

    /// The engines by binding name.
    pub closed spec fn profiles(self) -> Map<Seq<char>, E> {
        self.engines@
    }

    /// Only finitely many bindings are ever registered.
    pub proof fn lemma_profiles_finite(&self)
        ensures
            self.profiles().dom().finite(),
    {
        self.engines.lemma_finite();
    }

    /// A plugin with no binding registered.
    pub fn new() -> (p: Self)
        ensures
            p.profiles() == Map::<Seq<char>, E>::empty(),
    {
        let manifest = PluginManifest {
            id: String::from_str(BindingSurface::Chat.entity_id_str()),
            name: String::from_str(BindingSurface::Chat.entity_name_str()),
            class: PluginClass::Backend,
        };
        CompatChatPlugin { manifest, engines: ProfileRegistry::new() }
    }

    /// The plugin's identity.
    pub fn manifest(&self) -> (m: &PluginManifest)
        ensures
            m.id@ == BindingSurface::Chat.entity_id(),
            m.name@ == BindingSurface::Chat.entity_name(),
            m.class == PluginClass::Backend,
    {
        proof {
            use_type_invariant(self);
        }
        &self.manifest
    }

    /// The registry kind this plugin serves.
    pub fn kind(&self) -> (k: &'static str)
        ensures
            k@ == BindingSurface::Chat.kind_text(),
    {
        BindingSurface::Chat.kind()
    }

    /// How many bindings are registered.
    pub fn registered_profile_count(&self) -> (n: usize)
        ensures
            n == self.profiles().len(),
    {
        self.engines.len()
    }

    /// Registers `engine` under the binding name of an accepted registration,
    /// replacing any engine that binding had. Only a registration whose every
    /// check passed can be installed.
    pub fn install(&mut self, registration: Registration, engine: E)
        requires
            registration.accepted(),
            registration.surface() == BindingSurface::Chat,
        ensures
            final(self).profiles() == old(self).profiles().insert(registration.backend_name(), engine),
    {
        proof {
            use_type_invariant(&*self);
        }
        let backend_name = registration.into_backend_name();
        let mut engines = ProfileRegistry::new();
        std::mem::swap(&mut engines, &mut self.engines);
        engines.insert(backend_name, engine);
        self.engines = engines;
    }

    /// What a call of `backend_name` with `payload` runs on: the binding's
    /// engine, looked up first, and the request's arguments.
    pub fn prepare_call(&self, backend_name: &str, payload: &[u8]) -> (r: Result<
        (&E, serde_json::Value),
        BackendError,
    >)
        ensures
            !self.profiles().contains_key(backend_name@) ==> (r matches Err(
                BackendError::ProfileNotFound { backend_name: n },
            ) && n@ == backend_name@),
            self.profiles().contains_key(backend_name@) ==> (r is Ok <==> arguments_of(payload@) is Some),
            r matches Ok((e, v)) ==> *e == self.profiles()[backend_name@] && arguments_of(payload@)
                == Some(v),
            self.profiles().contains_key(backend_name@) && r is Err ==> is_invalid_spec(
                r->Err_0,
                not_json_message(payload@),
            ),
            // The arguments are read from every byte of a non-empty payload.
            self.profiles().contains_key(backend_name@) && payload@.len() != 0 && is_json_document(
                payload@,
            ) ==> (r matches Ok((e, v)) && v == parsed_document(payload@)),
    {
        let engine = self.profile(backend_name)?;
        let arguments = request_arguments(payload)?;
        Ok((engine, arguments))
    }

    /// The engine registered under `backend_name`.
    pub fn profile(&self, backend_name: &str) -> (r: Result<&E, BackendError>)
        ensures
            r is Ok <==> self.profiles().contains_key(backend_name@),
            r matches Ok(e) ==> *e == self.profiles()[backend_name@],
            r matches Err(e) ==> (e matches BackendError::ProfileNotFound { backend_name: n }
                && n@ == backend_name@),
    {
        match self.engines.get(backend_name) {
            Some(e) => Ok(e),
            None => Err(BackendError::ProfileNotFound { backend_name: String::from_str(backend_name) }),
        }
    }
}

impl<E> Default for CompatChatPlugin<E> {
    fn default() -> (p: Self)
        ensures
            p.profiles() == Map::<Seq<char>, E>::empty(),
    {
        Self::new()
    }
}

} // verus!
