use mcpg_plugin_backend_llm_compat::config::{
    ApiKeyRef, ChatExecutionSpec, ConfigError, EmbeddingExecutionSpec, PromptSpec,
    ResponseFormatSpec,
};
use mcpg_plugin_backend_llm_compat::text::is_blank_str;
use mcpg_plugin_backend_llm_compat::{CompatChatSpec, CompatEmbeddingSpec};

fn minimal() -> ChatExecutionSpec {
    ChatExecutionSpec {
        model: "llama3-70b".into(),
        timeout_ms: 30_000,
        connect_timeout_ms: 5_000,
        prompt: PromptSpec {
            system: "you are helpful".into(),
            user: "{{ input.text }}".into(),
        },
        response_format: Default::default(),
    }
}

#[test]
fn requires_base_url() {
    let s = CompatChatSpec {
        base_url: "  ".into(),
        api_key: None,
        chat: minimal(),
    };
    assert!(s.validate(Ok(())).is_err());
}

#[test]
fn accepts_no_api_key() {
    let s = CompatChatSpec {
        base_url: "http://localhost:8000/v1".into(),
        api_key: None,
        chat: minimal(),
    };
    s.validate(Ok(())).unwrap();
}

#[test]
fn blank_base_url_message_names_the_field() {
    let s = CompatChatSpec {
        base_url: "".into(),
        api_key: None,
        chat: minimal(),
    };
    match s.validate(Ok(())) {
        Err(ConfigError::InvalidSpec(m)) => assert_eq!(
            m,
            "compat_chat: base_url is required (operator must declare the endpoint URL up to but not including `/chat/completions`)"
        ),
        Ok(()) => panic!("blank base_url accepted"),
    }
}

#[test]
fn unicode_whitespace_base_url_is_blank() {
    let s = CompatChatSpec {
        base_url: "\u{3000}\t\u{2028}\n".into(),
        api_key: None,
        chat: minimal(),
    };
    assert!(s.validate(Ok(())).is_err());
}

#[test]
fn present_base_url_reports_execution_verdict() {
    let s = CompatChatSpec {
        base_url: " http://x ".into(),
        api_key: Some(ApiKeyRef { reference: "k".into() }),
        chat: minimal(),
    };
    match s.validate(Err(ConfigError::InvalidSpec("prompt.user is empty".into()))) {
        Err(ConfigError::InvalidSpec(m)) => assert_eq!(m, "prompt.user is empty"),
        Ok(()) => panic!("execution verdict ignored"),
    }
}

#[test]
fn blank_base_url_wins_over_execution_verdict() {
    let s = CompatChatSpec {
        base_url: " ".into(),
        api_key: None,
        chat: minimal(),
    };
    match s.validate(Err(ConfigError::InvalidSpec("other".into()))) {
        Err(e) => assert!(e.message().starts_with("compat_chat: base_url is required")),
        Ok(()) => panic!("blank base_url accepted"),
    }
}

#[test]
fn default_response_format_is_json_schema() {
    let f: ResponseFormatSpec = Default::default();
    assert_eq!(f.mode, mcpg_plugin_backend_llm_compat::config::ResponseFormatMode::JsonSchema);
}

fn embedding(base_url: &str) -> CompatEmbeddingSpec {
    CompatEmbeddingSpec {
        base_url: base_url.into(),
        api_key: None,
        embedding: EmbeddingExecutionSpec {
            model: "all-MiniLM-L6-v2".into(),
            timeout_ms: 10_000,
            connect_timeout_ms: 5_000,
        },
    }
}

#[test]
fn embedding_requires_base_url() {
    match embedding("").validate(Ok(())) {
        Err(ConfigError::InvalidSpec(m)) => assert_eq!(m, "compat_embedding: base_url is required"),
        Ok(()) => panic!("blank base_url accepted"),
    }
}

#[test]
fn embedding_accepts_base_url() {
    embedding("http://localhost:8000/v1").validate(Ok(())).unwrap();
}

#[test]
fn is_blank_str_checks_every_character() {
    assert!(is_blank_str(""));
    assert!(is_blank_str(" \u{a0}\u{85}\r"));
    assert!(!is_blank_str("  a  "));
    assert!(!is_blank_str("\u{200b}"));
}

/// Reads the fields this binding uses out of a config document, taking the
/// defaults the deserializer applies to absent ones.
fn chat_spec_from(doc: &serde_json::Value) -> CompatChatSpec {
    let text = |v: &serde_json::Value| v.as_str().unwrap().to_string();
    CompatChatSpec {
        base_url: text(&doc["base_url"]),
        api_key: doc.get("api_key").map(|k| ApiKeyRef { reference: text(k) }),
        chat: ChatExecutionSpec {
            model: text(&doc["model"]),
            timeout_ms: doc.get("timeout_ms").and_then(|v| v.as_u64()).unwrap_or(60_000),
            connect_timeout_ms: doc
                .get("connect_timeout_ms")
                .and_then(|v| v.as_u64())
                .unwrap_or(5_000),
            prompt: PromptSpec {
                system: text(&doc["prompt"]["system"]),
                user: text(&doc["prompt"]["user"]),
            },
            response_format: Default::default(),
        },
    }
}

#[test]
fn json_round_trip_minimal() {
    let json: serde_json::Value = serde_json::from_str(
        r#"{
            "base_url": "https://api.together.xyz/v1",
            "model": "meta-llama/Llama-3-70b-chat-hf",
            "prompt": { "system": "x", "user": "y" }
        }"#,
    )
    .unwrap();
    let s = chat_spec_from(&json);
    assert!(s.api_key.is_none());
    s.validate(Ok(())).unwrap();
}

#[test]
fn json_round_trip_with_key() {
    let json: serde_json::Value = serde_json::from_str(
        r#"{
            "base_url": "https://api.groq.com/openai/v1",
            "api_key": "k",
            "model": "llama-3.3-70b-versatile",
            "prompt": { "system": "x", "user": "y" }
        }"#,
    )
    .unwrap();
    let s = chat_spec_from(&json);
    assert!(s.api_key.is_some());
    s.validate(Ok(())).unwrap();
}
