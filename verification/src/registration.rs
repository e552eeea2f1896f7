//! The decisions of registering one binding profile.
//!
//! Registration alternates work done elsewhere (validating the provider-agnostic
//! execution spec, resolving the key, building the adapter, compiling the
//! templates and the output schema) with decisions taken here. A
//! [`Registration`] hands out one [`RegistrationStep`] at a time; the caller
//! performs it and reports back a [`RegistrationEvent`], until the step is
//! `Install` or `Refuse`.

use vstd::prelude::*;

use crate::config::{
    ApiKeyRef, CompatChatSpec, CompatEmbeddingSpec, ConfigError, PromptSpec, ResponseFormatMode,
};
use crate::json::{json_member, member};
use crate::protocol::{is_invalid_spec, BackendError};
use crate::surface::{prefixed, BindingSurface};

verus! {

/// The label under which the adapter reports its provider.
pub open spec fn provider_label() -> Seq<char> {
    "openai-compatible"@
}

/// Why a declared key that resolves to nothing is refused: requests would
/// otherwise go out unauthenticated although the operator declared a key.
pub open spec fn empty_key_message() -> Seq<char> {
    "api_key is declared but resolved to an empty value"@
}

/// Leads the message of prompt templates that do not compile.
pub open spec fn template_error_prefix() -> Seq<char> {
    "template: "@
}

/// What the endpoint adapter is built from. The adapter always speaks the
/// OpenAI wire format in its `Compatible` variant.
pub struct AdapterSettings {
    pub provider_label: String,
    pub base_url: String,
    /// Empty when the binding declares no key: no `Authorization` header is sent.
    pub api_key: String,
    pub connect_timeout_ms: u64,
}

/// Where a registration stands.
pub enum RegistrationStage {
    CheckingSpec,
    ResolvingKey,
    BuildingAdapter,
    CompilingTemplates,
    CompilingSchema,
    /// Refused: nothing may be installed for it.
    Refused,
    /// Every check passed: the engine may be installed.
    Accepted,
}

/// What the caller does next.
pub enum RegistrationStep {
    /// Validate the provider-agnostic execution spec; report `ExecutionChecked`.
    CheckExecutionSpec,
    /// Resolve the key reference; report `ApiKeyResolved`.
    ResolveApiKey(ApiKeyRef),
    /// Build the endpoint adapter; report `AdapterBuilt`.
    BuildAdapter(AdapterSettings),
    /// Compile the system and user prompt templates; report `TemplatesCompiled`.
    CompileTemplates(PromptSpec),
    /// Compile the output schema into a validator; report `OutputSchemaCompiled`.
    CompileOutputSchema(serde_json::Value),
    /// Build the engine (with the compiled validator, if one was asked for)
    /// and hand it, with this now accepted registration, to the plugin's
    /// `install`; `output_schema` is the schema it enforces, if any.
    Install { output_schema: Option<serde_json::Value> },
    /// Registration fails with this error; nothing is registered.
    Refuse(BackendError),
}

/// What the caller reports after performing a step. A failure carries the
/// description of what went wrong.
pub enum RegistrationEvent {
    ExecutionChecked(Result<(), ConfigError>),
    ApiKeyResolved(Result<String, BackendError>),
    AdapterBuilt(Result<(), String>),
    TemplatesCompiled(Result<(), String>),
    OutputSchemaCompiled(Result<(), String>),
}

/// `serde_json::Value`'s `Clone`: an equal document.
#[verifier::external_body]
fn duplicate_document(document: &serde_json::Value) -> (r: serde_json::Value)
    ensures
        r == *document,
{
    document.clone()
}

fn duplicate_key(key: &ApiKeyRef) -> (r: ApiKeyRef)
    ensures
        r == *key,
{
    ApiKeyRef { reference: key.reference.clone() }
}

fn duplicate_prompt(prompt: &PromptSpec) -> (r: PromptSpec)
    ensures
        r == *prompt,
{
    PromptSpec { system: prompt.system.clone(), user: prompt.user.clone() }
}

/// `step` refuses with an `InvalidSpec` carrying exactly `message`.
pub open spec fn refuses_invalid(step: RegistrationStep, message: Seq<char>) -> bool {
    step matches RegistrationStep::Refuse(e) && is_invalid_spec(e, message)
}

/// The refusal of a config document that does not deserialize into the
/// binding's spec; `detail` is the deserializer's description.
pub fn unreadable_spec(surface: BindingSurface, detail: &str) -> (e: BackendError)
    ensures
        is_invalid_spec(e, surface.spec_error_prefix() + detail@),
{
    BackendError::InvalidSpec { message: prefixed(surface.spec_error_prefix_str(), detail) }
}

/// A registration of one binding in progress.
pub struct Registration {
    surface: BindingSurface,
    backend_name: String,
    base_url: String,
    api_key: Option<ApiKeyRef>,
    connect_timeout_ms: u64,
    prompt: Option<PromptSpec>,
    output_schema: Option<serde_json::Value>,
    stage: RegistrationStage,
}

impl Registration {
    pub closed spec fn surface(self) -> BindingSurface {
        self.surface
    }

    /// The binding name the profile is registered under.
    pub closed spec fn backend_name(self) -> Seq<char> {
        self.backend_name@
    }

    /// The binding name, handed over to the profile table.
    pub fn into_backend_name(self) -> (n: String)
        ensures
            n@ == self.backend_name(),
    {
        self.backend_name
    }

    /// Every check passed and the engine may be installed.
    pub open spec fn accepted(self) -> bool {
        self.stage() == RegistrationStage::Accepted
    }

    pub closed spec fn base_url(self) -> Seq<char> {
        self.base_url@
    }

    pub closed spec fn api_key(self) -> Option<ApiKeyRef> {
        self.api_key
    }

    pub closed spec fn connect_timeout_ms(self) -> u64 {
        self.connect_timeout_ms
    }

    /// The prompt templates, for a chat binding; `None` for an embedding binding.
    pub closed spec fn prompt(self) -> Option<PromptSpec> {
        self.prompt
    }

    /// The output schema the reply must satisfy, if the binding asks for one.
    pub closed spec fn output_schema(self) -> Option<serde_json::Value> {
        self.output_schema
    }

    pub closed spec fn stage(self) -> RegistrationStage {
        self.stage
    }

    /// Everything but the stage is as in `other`.
    pub open spec fn same_binding(self, other: Self) -> bool {
        &&& self.surface() == other.surface()
        &&& self.backend_name() == other.backend_name()
        &&& self.base_url() == other.base_url()
        &&& self.api_key() == other.api_key()
        &&& self.connect_timeout_ms() == other.connect_timeout_ms()
        &&& self.prompt() == other.prompt()
        &&& self.output_schema() == other.output_schema()
    }

    /// `event` is the report the current stage waits for.
    pub open spec fn expects(self, event: RegistrationEvent) -> bool {
        match self.stage() {
            RegistrationStage::CheckingSpec => event is ExecutionChecked,
            RegistrationStage::ResolvingKey => event is ApiKeyResolved,
            RegistrationStage::BuildingAdapter => event is AdapterBuilt,
            RegistrationStage::CompilingTemplates => event is TemplatesCompiled,
            RegistrationStage::CompilingSchema => event is OutputSchemaCompiled,
            RegistrationStage::Refused => false,
            RegistrationStage::Accepted => false,
        }
    }

    /// `a` builds this binding's adapter with key `key`.
    pub open spec fn adapter_for(self, a: AdapterSettings, key: Seq<char>) -> bool {
        &&& a.provider_label@ == provider_label()
        &&& a.base_url@ == self.base_url()
        &&& a.api_key@ == key
        &&& a.connect_timeout_ms == self.connect_timeout_ms()
    }

    /// Starts registering a chat binding. `document` is the binding config as the
    /// operator wrote it; under `json_schema` mode its `output_schema`
    /// member, if present, becomes the schema the reply must satisfy.
    pub fn for_chat(backend_name: &str, spec: CompatChatSpec, document: &serde_json::Value) -> (r: (
        Registration,
        RegistrationStep,
    ))
        ensures
            r.0.surface() == BindingSurface::Chat,
            r.0.backend_name() == backend_name@,
            r.0.base_url() == spec.base_url@,
            r.0.api_key() == spec.api_key,
            r.0.connect_timeout_ms() == spec.chat.connect_timeout_ms,
            r.0.prompt() == Some(spec.chat.prompt),
            spec.chat.response_format.mode == ResponseFormatMode::Text ==> r.0.output_schema() is None,
            spec.chat.response_format.mode == ResponseFormatMode::JsonSchema ==> r.0.output_schema()
                == json_member(*document, "output_schema"@),
            crate::text::is_blank(spec.base_url@) ==> refuses_invalid(
                r.1,
                crate::config::chat_base_url_required(),
            ) && r.0.stage() == RegistrationStage::Refused,
            !crate::text::is_blank(spec.base_url@) ==> r.1 is CheckExecutionSpec && r.0.stage()
                == RegistrationStage::CheckingSpec,
    {
        let presence = spec.validate(Ok(()));
        let output_schema = match spec.chat.response_format.mode {
            ResponseFormatMode::JsonSchema => member(document, "output_schema"),
            ResponseFormatMode::Text => None,
        };
        let CompatChatSpec { base_url, api_key, chat } = spec;
        let mut registration = Registration {
            surface: BindingSurface::Chat,
            backend_name: String::from_str(backend_name),
            base_url,
            api_key,
            connect_timeout_ms: chat.connect_timeout_ms,
            prompt: Some(chat.prompt),
            output_schema,
            stage: RegistrationStage::CheckingSpec,
        };
        match presence {
            Err(e) => {
                registration.stage = RegistrationStage::Refused;
                (registration, RegistrationStep::Refuse(BackendError::InvalidSpec { message: e.message() }))
            },
            Ok(()) => (registration, RegistrationStep::CheckExecutionSpec),
        }
    }

    /// Starts registering an embedding binding.
    pub fn for_embedding(backend_name: &str, spec: CompatEmbeddingSpec) -> (r: (
        Registration,
        RegistrationStep,
    ))
        ensures
            r.0.surface() == BindingSurface::Embedding,
            r.0.backend_name() == backend_name@,
            r.0.base_url() == spec.base_url@,
            r.0.api_key() == spec.api_key,
            r.0.connect_timeout_ms() == spec.embedding.connect_timeout_ms,
            r.0.prompt() is None,
            r.0.output_schema() is None,
            crate::text::is_blank(spec.base_url@) ==> refuses_invalid(
                r.1,
                crate::config::embedding_base_url_required(),
            ) && r.0.stage() == RegistrationStage::Refused,
            !crate::text::is_blank(spec.base_url@) ==> r.1 is CheckExecutionSpec && r.0.stage()
                == RegistrationStage::CheckingSpec,
    {
        let presence = spec.validate(Ok(()));
        let CompatEmbeddingSpec { base_url, api_key, embedding } = spec;
        let mut registration = Registration {
            surface: BindingSurface::Embedding,
            backend_name: String::from_str(backend_name),
            base_url,
            api_key,
            connect_timeout_ms: embedding.connect_timeout_ms,
            prompt: None,
            output_schema: None,
            stage: RegistrationStage::CheckingSpec,
        };
        match presence {
            Err(e) => {
                registration.stage = RegistrationStage::Refused;
                (registration, RegistrationStep::Refuse(BackendError::InvalidSpec { message: e.message() }))
            },
            Ok(()) => (registration, RegistrationStep::CheckExecutionSpec),
        }
    }

    fn adapter(&self, api_key: String) -> (a: AdapterSettings)
        ensures
            self.adapter_for(a, api_key@),
    {
        AdapterSettings {
            provider_label: String::from_str("openai-compatible"),
            base_url: self.base_url.clone(),
            api_key,
            connect_timeout_ms: self.connect_timeout_ms,
        }
    }

    /// The step after the adapter is built: the templates for a chat binding,
    /// installation for an embedding binding.
    fn after_adapter(&mut self) -> (step: RegistrationStep)
        ensures
            final(self).same_binding(*old(self)),
            old(self).prompt() matches Some(p) ==> step == RegistrationStep::CompileTemplates(p)
                && final(self).stage() == RegistrationStage::CompilingTemplates,
            old(self).prompt() is None ==> step == (RegistrationStep::Install {
                output_schema: old(self).output_schema(),
            }) && final(self).stage() == RegistrationStage::Accepted,
    {
        match &self.prompt {
            Some(p) => {
                let p = duplicate_prompt(p);
                self.stage = RegistrationStage::CompilingTemplates;
                RegistrationStep::CompileTemplates(p)
            },
            None => self.install(),
        }
    }

    fn install(&mut self) -> (step: RegistrationStep)
        ensures
            final(self).same_binding(*old(self)),
            final(self).stage() == RegistrationStage::Accepted,
            step == (RegistrationStep::Install { output_schema: old(self).output_schema() }),
    {
        let output_schema = match &self.output_schema {
            Some(s) => Some(duplicate_document(s)),
            None => None,
        };
        self.stage = RegistrationStage::Accepted;
        RegistrationStep::Install { output_schema }
    }

    fn refuse(&mut self, error: BackendError) -> (step: RegistrationStep)
        ensures
            final(self).same_binding(*old(self)),
            final(self).stage() == RegistrationStage::Refused,
            step == RegistrationStep::Refuse(error),
    {
        self.stage = RegistrationStage::Refused;
        RegistrationStep::Refuse(error)
    }

    /// Takes the report of the step just performed and decides the next one.
    pub fn advance(&mut self, event: RegistrationEvent) -> (step: RegistrationStep)
        requires
            old(self).expects(event),
        ensures
            final(self).same_binding(*old(self)),
            // An adapter is always asked for with the binding's own endpoint
            // and connect timeout, unchanged.
            step matches RegistrationStep::BuildAdapter(a) ==> a.base_url@ == old(self).base_url()
                && a.connect_timeout_ms == old(self).connect_timeout_ms() && a.provider_label@
                == "openai-compatible"@,
            // ... and with the resolved key unchanged, or no key at all.
            event matches RegistrationEvent::ApiKeyResolved(Ok(key)) ==> (step matches RegistrationStep::BuildAdapter(a) ==> a.api_key@ == key@),
            event is ExecutionChecked ==> (step matches RegistrationStep::BuildAdapter(a) ==> a.api_key@.len() == 0 && old(self).api_key() is None),
            // The execution spec was checked.
            event matches RegistrationEvent::ExecutionChecked(Err(e)) ==> refuses_invalid(step, e.text())
                && final(self).stage() == RegistrationStage::Refused,
            event matches RegistrationEvent::ExecutionChecked(Ok(())) ==> match old(self).api_key() {
                Some(k) => step == RegistrationStep::ResolveApiKey(k) && final(self).stage()
                    == RegistrationStage::ResolvingKey,
                None => (step matches RegistrationStep::BuildAdapter(a) && old(self).adapter_for(a, Seq::empty()))
                    && final(self).stage() == RegistrationStage::BuildingAdapter,
            },
            // The key was resolved.
            event matches RegistrationEvent::ApiKeyResolved(Err(e)) ==> step == RegistrationStep::Refuse(e)
                && final(self).stage() == RegistrationStage::Refused,
            event matches RegistrationEvent::ApiKeyResolved(Ok(key)) ==> if key@.len() == 0 {
                refuses_invalid(step, empty_key_message()) && final(self).stage()
                    == RegistrationStage::Refused
            } else {
                (step matches RegistrationStep::BuildAdapter(a) && old(self).adapter_for(a, key@))
                    && final(self).stage() == RegistrationStage::BuildingAdapter
            },
            // The adapter was built.
            event matches RegistrationEvent::AdapterBuilt(Err(d)) ==> refuses_invalid(
                step,
                old(self).surface().adapter_error_prefix() + d@,
            ) && final(self).stage() == RegistrationStage::Refused,
            event matches RegistrationEvent::AdapterBuilt(Ok(())) ==> match old(self).prompt() {
                Some(p) => step == RegistrationStep::CompileTemplates(p) && final(self).stage()
                    == RegistrationStage::CompilingTemplates,
                None => step == (RegistrationStep::Install { output_schema: old(self).output_schema() })
                    && final(self).stage() == RegistrationStage::Accepted,
            },
            // The templates were compiled.
            event matches RegistrationEvent::TemplatesCompiled(Err(d)) ==> refuses_invalid(
                step,
                template_error_prefix() + d@,
            ) && final(self).stage() == RegistrationStage::Refused,
            event matches RegistrationEvent::TemplatesCompiled(Ok(())) ==> match old(self).output_schema() {
                Some(s) => step == RegistrationStep::CompileOutputSchema(s) && final(self).stage()
                    == RegistrationStage::CompilingSchema,
                None => step == (RegistrationStep::Install { output_schema: None })
                    && final(self).stage() == RegistrationStage::Accepted,
            },
            // The output schema was compiled.
            event matches RegistrationEvent::OutputSchemaCompiled(Err(d)) ==> refuses_invalid(step, d@)
                && final(self).stage() == RegistrationStage::Refused,
            event matches RegistrationEvent::OutputSchemaCompiled(Ok(())) ==> step == (RegistrationStep::Install {
                output_schema: old(self).output_schema(),
            }) && final(self).stage() == RegistrationStage::Accepted,
    {
        match event {
            RegistrationEvent::ExecutionChecked(Err(e)) => {
                let message = e.message();
                self.refuse(BackendError::InvalidSpec { message })
            },
            RegistrationEvent::ExecutionChecked(Ok(())) => match &self.api_key {
                Some(k) => {
                    let k = duplicate_key(k);
                    self.stage = RegistrationStage::ResolvingKey;
                    RegistrationStep::ResolveApiKey(k)
                },
                None => {
                    let a = self.adapter(String::new());
                    self.stage = RegistrationStage::BuildingAdapter;
                    RegistrationStep::BuildAdapter(a)
                },
            },
            RegistrationEvent::ApiKeyResolved(Err(e)) => self.refuse(e),
            RegistrationEvent::ApiKeyResolved(Ok(key)) => {
                if key.as_str().is_empty() {
                    let message = String::from_str("api_key is declared but resolved to an empty value");
                    return self.refuse(BackendError::InvalidSpec { message });
                }
                let a = self.adapter(key);
                self.stage = RegistrationStage::BuildingAdapter;
                RegistrationStep::BuildAdapter(a)
            },
            RegistrationEvent::AdapterBuilt(Err(d)) => {
                let message = prefixed(self.surface.adapter_error_prefix_str(), d.as_str());
                self.refuse(BackendError::InvalidSpec { message })
            },
            RegistrationEvent::AdapterBuilt(Ok(())) => self.after_adapter(),
            RegistrationEvent::TemplatesCompiled(Err(d)) => {
                let message = prefixed("template: ", d.as_str());
                self.refuse(BackendError::InvalidSpec { message })
            },
            RegistrationEvent::TemplatesCompiled(Ok(())) => match &self.output_schema {
                Some(s) => {
                    let s = duplicate_document(s);
                    self.stage = RegistrationStage::CompilingSchema;
                    RegistrationStep::CompileOutputSchema(s)
                },
                None => self.install(),
            },
            RegistrationEvent::OutputSchemaCompiled(Err(d)) => self.refuse(BackendError::InvalidSpec { message: d }),
            RegistrationEvent::OutputSchemaCompiled(Ok(())) => self.install(),
        }
    }
}

} // verus!
