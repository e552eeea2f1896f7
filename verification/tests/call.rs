use mcpg_plugin_backend_llm_compat::call::{call_status, frame_reply, request_arguments};
use mcpg_plugin_backend_llm_compat::protocol::BackendError;
use mcpg_plugin_backend_llm_compat::surface::BindingSurface;

#[test]
fn empty_payload_means_empty_object() {
    let v = request_arguments(b"").unwrap();
    assert_eq!(v, serde_json::Value::Object(serde_json::Map::new()));
}

#[test]
fn payload_is_read_as_json() {
    let v = request_arguments(br#"{"text":"hi"}"#).unwrap();
    assert_eq!(v["text"], serde_json::Value::String("hi".into()));
}

#[test]
fn non_json_payload_is_invalid_spec() {
    match request_arguments(b"{not json") {
        Err(BackendError::InvalidSpec { message }) => {
            assert!(message.starts_with("execute payload was not JSON: "))
        }
        _ => panic!("expected InvalidSpec"),
    }
}

#[test]
fn status_labels() {
    let ok: Result<u8, BackendError> = Ok(1);
    let err: Result<u8, BackendError> = Err(BackendError::Upstream { message: "x".into() });
    assert_eq!(call_status(&ok), "ok");
    assert_eq!(call_status(&err), "error");
}

#[test]
fn reply_carries_the_serialized_document() {
    let doc: serde_json::Value = serde_json::from_str(r#"{"text":"hello"}"#).unwrap();
    let r = frame_reply(BindingSurface::Chat, Ok(doc)).unwrap();
    assert!(!r.truncated);
    assert_eq!(r.payload, br#"{"text":"hello"}"#.to_vec());
}

#[test]
fn failures_pass_through() {
    let r = frame_reply(
        BindingSurface::Embedding,
        Err(BackendError::Upstream { message: "rate limited".into() }),
    );
    match r {
        Err(BackendError::Upstream { message }) => assert_eq!(message, "rate limited"),
        _ => panic!("failure not passed through"),
    }
}

#[test]
fn empty_payload_reads_as_braces() {
    assert_eq!(request_arguments(b"").unwrap(), request_arguments(b"{}").unwrap());
}

#[test]
fn non_json_payload_message_carries_the_description() {
    let expected = format!(
        "execute payload was not JSON: {}",
        serde_json::from_slice::<serde_json::Value>(b"[1,").unwrap_err()
    );
    match request_arguments(b"[1,") {
        Err(BackendError::InvalidSpec { message }) => assert_eq!(message, expected),
        _ => panic!("expected InvalidSpec"),
    }
}
