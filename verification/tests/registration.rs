use mcpg_plugin_backend_llm_compat::config::{
    ApiKeyRef, ChatExecutionSpec, ConfigError, EmbeddingExecutionSpec, PromptSpec,
    ResponseFormatMode, ResponseFormatSpec,
};
use mcpg_plugin_backend_llm_compat::protocol::BackendError;
use mcpg_plugin_backend_llm_compat::registration::{
    unreadable_spec, Registration, RegistrationEvent, RegistrationStep,
};
use mcpg_plugin_backend_llm_compat::surface::BindingSurface;
use mcpg_plugin_backend_llm_compat::{
    CompatChatPlugin, CompatChatSpec, CompatEmbeddingPlugin, CompatEmbeddingSpec,
};

/// What the outside work reported, and what was asked of it.
#[derive(Default)]
struct Log {
    keys_resolved: Vec<String>,
    adapter_keys: Vec<String>,
    adapter_urls: Vec<String>,
    templates: Vec<(String, String)>,
    schemas: Vec<serde_json::Value>,
}

/// Drives a registration, answering each step with success, and returns the
/// output schema it installs with.
fn drive(
    start: (Registration, RegistrationStep),
    log: &mut Log,
) -> Result<Option<serde_json::Value>, BackendError> {
    drive_to_end(start, log).map(|(_, schema)| schema)
}

/// Drives a registration to its end, returning the accepted registration.
fn drive_to_end(
    start: (Registration, RegistrationStep),
    log: &mut Log,
) -> Result<(Registration, Option<serde_json::Value>), BackendError> {
    let (mut reg, mut step) = start;
    loop {
        step = match step {
            RegistrationStep::CheckExecutionSpec => {
                reg.advance(RegistrationEvent::ExecutionChecked(Ok(())))
            }
            RegistrationStep::ResolveApiKey(k) => {
                log.keys_resolved.push(k.reference.clone());
                reg.advance(RegistrationEvent::ApiKeyResolved(Ok(k.reference)))
            }
            RegistrationStep::BuildAdapter(a) => {
                assert_eq!(a.provider_label, "openai-compatible");
                log.adapter_keys.push(a.api_key);
                log.adapter_urls.push(a.base_url);
                reg.advance(RegistrationEvent::AdapterBuilt(Ok(())))
            }
            RegistrationStep::CompileTemplates(p) => {
                log.templates.push((p.system, p.user));
                reg.advance(RegistrationEvent::TemplatesCompiled(Ok(())))
            }
            RegistrationStep::CompileOutputSchema(s) => {
                log.schemas.push(s);
                reg.advance(RegistrationEvent::OutputSchemaCompiled(Ok(())))
            }
            RegistrationStep::Install { output_schema } => return Ok((reg, output_schema)),
            RegistrationStep::Refuse(e) => return Err(e),
        }
    }
}

fn chat_spec(base_url: &str, api_key: Option<&str>, mode: ResponseFormatMode) -> CompatChatSpec {
    CompatChatSpec {
        base_url: base_url.into(),
        api_key: api_key.map(|k| ApiKeyRef { reference: k.into() }),
        chat: ChatExecutionSpec {
            model: "llama3".into(),
            timeout_ms: 60_000,
            connect_timeout_ms: 5_000,
            prompt: PromptSpec { system: "x".into(), user: "{{ input.text }}".into() },
            response_format: ResponseFormatSpec { mode },
        },
    }
}

fn document(text: &str) -> serde_json::Value {
    serde_json::from_str(text).unwrap()
}

fn embedding_spec(base_url: &str) -> CompatEmbeddingSpec {
    CompatEmbeddingSpec {
        base_url: base_url.into(),
        api_key: None,
        embedding: EmbeddingExecutionSpec {
            model: "all-MiniLM-L6-v2".into(),
            timeout_ms: 10_000,
            connect_timeout_ms: 5_000,
        },
    }
}

#[test]
fn register_minimal_spec_succeeds() {
    let mut plugin = CompatChatPlugin::<u32>::new();
    let doc = document(
        r#"{"base_url":"http://localhost:8000/v1","model":"llama3","prompt":{"system":"x","user":"{{ input.text }}"}}"#,
    );
    let mut log = Log::default();
    let start = Registration::for_chat(
        "compat",
        chat_spec("http://localhost:8000/v1", None, ResponseFormatMode::JsonSchema),
        &doc,
    );
    let (reg, schema) = drive_to_end(start, &mut log).unwrap();
    assert!(schema.is_none());
    plugin.install(reg, 1);
    assert_eq!(*plugin.profile("compat").unwrap(), 1);
    assert_eq!(plugin.registered_profile_count(), 1);
    assert_eq!(log.adapter_keys, vec![String::new()]);
    assert!(log.keys_resolved.is_empty());
    assert_eq!(log.templates, vec![("x".to_string(), "{{ input.text }}".to_string())]);
}

#[test]
fn plugin_register_rejects_missing_base_url() {
    let doc = document(r#"{"base_url":"","model":"x","prompt":{"system":"x","user":"y"}}"#);
    let mut log = Log::default();
    let start = Registration::for_chat("c", chat_spec("", None, ResponseFormatMode::JsonSchema), &doc);
    let err = drive(start, &mut log).unwrap_err();
    assert!(matches!(err, BackendError::InvalidSpec { .. }));
    assert!(log.adapter_urls.is_empty());
}

#[test]
fn register_with_api_key_succeeds() {
    let mut plugin = CompatChatPlugin::<u32>::new();
    let doc = document(
        r#"{"base_url":"https://api.groq.com/openai/v1","api_key":"k","model":"llama-3.3-70b-versatile","prompt":{"system":"x","user":"{{ input.text }}"}}"#,
    );
    let mut log = Log::default();
    let start = Registration::for_chat(
        "groq",
        chat_spec("https://api.groq.com/openai/v1", Some("k"), ResponseFormatMode::JsonSchema),
        &doc,
    );
    let (reg, _) = drive_to_end(start, &mut log).unwrap();
    plugin.install(reg, 1);
    assert!(plugin.profile("groq").is_ok());
    assert_eq!(plugin.registered_profile_count(), 1);
    assert_eq!(log.keys_resolved, vec!["k".to_string()]);
    assert_eq!(log.adapter_keys, vec!["k".to_string()]);
    assert_eq!(log.adapter_urls, vec!["https://api.groq.com/openai/v1".to_string()]);
}

#[test]
fn register_minimal_spec() {
    let mut plugin = CompatEmbeddingPlugin::<u32>::new();
    let mut log = Log::default();
    let start = Registration::for_embedding("embed", embedding_spec("http://localhost:8000/v1"));
    let (reg, schema) = drive_to_end(start, &mut log).unwrap();
    assert!(schema.is_none());
    assert!(log.templates.is_empty());
    plugin.install(reg, 1);
    assert!(plugin.profile("embed").is_ok());
    assert_eq!(plugin.registered_profile_count(), 1);
}

#[test]
fn embedding_plugin_register_rejects_missing_base_url() {
    let mut log = Log::default();
    let err = drive(Registration::for_embedding("x", embedding_spec("")), &mut log).unwrap_err();
    match err {
        BackendError::InvalidSpec { message } => {
            assert_eq!(message, "compat_embedding: base_url is required")
        }
        _ => panic!("expected InvalidSpec"),
    }
}

#[test]
fn output_schema_is_compiled_under_json_schema_mode() {
    let doc = document(
        r#"{"base_url":"http://h","model":"m","prompt":{"system":"x","user":"y"},"output_schema":{"type":"object"}}"#,
    );
    let mut log = Log::default();
    let start = Registration::for_chat("c", chat_spec("http://h", None, ResponseFormatMode::JsonSchema), &doc);
    let schema = drive(start, &mut log).unwrap();
    let expected = document(r#"{"type":"object"}"#);
    assert_eq!(schema, Some(expected.clone()));
    assert_eq!(log.schemas, vec![expected]);
}

#[test]
fn text_mode_ignores_output_schema() {
    let doc = document(
        r#"{"base_url":"http://h","model":"m","prompt":{"system":"x","user":"y"},"output_schema":{"type":"object"}}"#,
    );
    let mut log = Log::default();
    let start = Registration::for_chat("c", chat_spec("http://h", None, ResponseFormatMode::Text), &doc);
    let schema = drive(start, &mut log).unwrap();
    assert!(schema.is_none());
    assert!(log.schemas.is_empty());
}

#[test]
fn failed_execution_check_refuses() {
    let doc = document(r#"{}"#);
    let (mut reg, step) =
        Registration::for_chat("c", chat_spec("http://h", None, ResponseFormatMode::Text), &doc);
    assert!(matches!(step, RegistrationStep::CheckExecutionSpec));
    let step = reg.advance(RegistrationEvent::ExecutionChecked(Err(ConfigError::InvalidSpec(
        "tools.max_iterations above 50".into(),
    ))));
    match step {
        RegistrationStep::Refuse(BackendError::InvalidSpec { message }) => {
            assert_eq!(message, "tools.max_iterations above 50")
        }
        _ => panic!("expected refusal"),
    }
}

#[test]
fn failed_adapter_and_templates_carry_prefixes() {
    let doc = document(r#"{}"#);
    let (mut reg, _) =
        Registration::for_chat("c", chat_spec("http://h", None, ResponseFormatMode::Text), &doc);
    reg.advance(RegistrationEvent::ExecutionChecked(Ok(())));
    match reg.advance(RegistrationEvent::AdapterBuilt(Err("bad url".into()))) {
        RegistrationStep::Refuse(BackendError::InvalidSpec { message }) => {
            assert_eq!(message, "build compat adapter: bad url")
        }
        _ => panic!("expected refusal"),
    }
    let (mut reg, _) =
        Registration::for_chat("c", chat_spec("http://h", None, ResponseFormatMode::Text), &doc);
    reg.advance(RegistrationEvent::ExecutionChecked(Ok(())));
    reg.advance(RegistrationEvent::AdapterBuilt(Ok(())));
    match reg.advance(RegistrationEvent::TemplatesCompiled(Err("unknown filter".into()))) {
        RegistrationStep::Refuse(BackendError::InvalidSpec { message }) => {
            assert_eq!(message, "template: unknown filter")
        }
        _ => panic!("expected refusal"),
    }
    let (mut reg, _) = Registration::for_embedding("x", embedding_spec("http://h"));
    reg.advance(RegistrationEvent::ExecutionChecked(Ok(())));
    match reg.advance(RegistrationEvent::AdapterBuilt(Err("bad url".into()))) {
        RegistrationStep::Refuse(BackendError::InvalidSpec { message }) => {
            assert_eq!(message, "build compat embedding adapter: bad url")
        }
        _ => panic!("expected refusal"),
    }
}

#[test]
fn key_resolution_failure_passes_through() {
    let doc = document(r#"{}"#);
    let (mut reg, _) =
        Registration::for_chat("c", chat_spec("http://h", Some("${env.K}"), ResponseFormatMode::Text), &doc);
    let step = reg.advance(RegistrationEvent::ExecutionChecked(Ok(())));
    assert!(matches!(step, RegistrationStep::ResolveApiKey(_)));
    match reg.advance(RegistrationEvent::ApiKeyResolved(Err(BackendError::InvalidSpec {
        message: "api_key resolved to empty".into(),
    }))) {
        RegistrationStep::Refuse(BackendError::InvalidSpec { message }) => {
            assert_eq!(message, "api_key resolved to empty")
        }
        _ => panic!("expected refusal"),
    }
}

#[test]
fn unreadable_spec_names_the_binding_type() {
    match unreadable_spec(BindingSurface::Chat, "missing field `base_url`") {
        BackendError::InvalidSpec { message } => {
            assert_eq!(message, "compat_chat spec: missing field `base_url`")
        }
        _ => panic!("expected InvalidSpec"),
    }
    match unreadable_spec(BindingSurface::Embedding, "missing field `model`") {
        BackendError::InvalidSpec { message } => {
            assert_eq!(message, "compat_embedding spec: missing field `model`")
        }
        _ => panic!("expected InvalidSpec"),
    }
}

#[test]
fn uncompilable_output_schema_refuses_under_json_schema_mode() {
    let doc = document(
        r#"{"base_url":"http://h","model":"m","prompt":{"system":"x","user":"y"},"output_schema":{"type":12}}"#,
    );
    let (mut reg, _) =
        Registration::for_chat("c", chat_spec("http://h", None, ResponseFormatMode::JsonSchema), &doc);
    reg.advance(RegistrationEvent::ExecutionChecked(Ok(())));
    reg.advance(RegistrationEvent::AdapterBuilt(Ok(())));
    let step = reg.advance(RegistrationEvent::TemplatesCompiled(Ok(())));
    match step {
        RegistrationStep::CompileOutputSchema(s) => assert_eq!(s, document(r#"{"type":12}"#)),
        _ => panic!("expected the schema to be compiled"),
    }
    match reg.advance(RegistrationEvent::OutputSchemaCompiled(Err("invalid type".into()))) {
        RegistrationStep::Refuse(BackendError::InvalidSpec { message }) => {
            assert_eq!(message, "invalid type")
        }
        _ => panic!("expected refusal"),
    }
}

#[test]
fn refused_registration_leaves_table_unchanged() {
    let mut plugin = CompatChatPlugin::<u32>::new();
    let doc = document(r#"{}"#);
    let mut log = Log::default();
    let (reg, _) = drive_to_end(
        Registration::for_chat("c", chat_spec("http://h", None, ResponseFormatMode::Text), &doc),
        &mut log,
    )
    .unwrap();
    plugin.install(reg, 7);
    let refused = drive_to_end(
        Registration::for_chat("c", chat_spec(" ", None, ResponseFormatMode::Text), &doc),
        &mut log,
    );
    assert!(refused.is_err());
    assert_eq!(plugin.registered_profile_count(), 1);
    assert_eq!(*plugin.profile("c").unwrap(), 7);
}

#[test]
fn declared_key_resolving_to_empty_is_refused() {
    let doc = document(r#"{}"#);
    let (mut reg, _) =
        Registration::for_chat("c", chat_spec("http://h", Some("${env.EMPTY}"), ResponseFormatMode::Text), &doc);
    reg.advance(RegistrationEvent::ExecutionChecked(Ok(())));
    match reg.advance(RegistrationEvent::ApiKeyResolved(Ok(String::new()))) {
        RegistrationStep::Refuse(BackendError::InvalidSpec { message }) => {
            assert_eq!(message, "api_key is declared but resolved to an empty value")
        }
        _ => panic!("expected refusal"),
    }
}
