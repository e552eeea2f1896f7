//! The decisions around one call of a registered binding: reading the
//! caller's arguments, labelling the outcome, and framing the reply.

use vstd::prelude::*;

use crate::json::{
    empty_object, empty_object_text, encode_document, error_description, error_text,
    is_json_document, json_text, parse_document, parse_error, parsed_document,
};
use crate::protocol::{is_invalid_spec, BackendError, BackendResponse};
use crate::surface::{prefixed, BindingSurface};

verus! {

pub open spec fn not_json_prefix() -> Seq<char> {
    "execute payload was not JSON: "@
}

/// What a payload that is no JSON document is refused with.
pub open spec fn not_json_message(payload: Seq<u8>) -> Seq<char> {
    not_json_prefix() + error_description(parse_error(payload))
}

/// The arguments a payload carries: `{}` for an empty payload, else the JSON
/// document it holds; `None` when it holds none.
pub open spec fn arguments_of(payload: Seq<u8>) -> Option<serde_json::Value> {
    if payload.len() == 0 {
        Some(parsed_document(empty_object_text()))
    } else if is_json_document(payload) {
        Some(parsed_document(payload))
    } else {
        None
    }
}

/// The arguments a request carries: `{}` for an empty payload, else the
/// payload read as one JSON document.
pub fn request_arguments(payload: &[u8]) -> (r: Result<serde_json::Value, BackendError>)
    ensures
        r is Ok <==> arguments_of(payload@) is Some,
        r matches Ok(v) ==> arguments_of(payload@) == Some(v),
        r matches Err(e) ==> is_invalid_spec(e, not_json_message(payload@)),
        // Every byte of a non-empty payload is read.
        payload@.len() != 0 && is_json_document(payload@) ==> r == Ok::<
            serde_json::Value,
            BackendError,
        >(parsed_document(payload@)),
        payload@.len() != 0 && !is_json_document(payload@) ==> r is Err && is_invalid_spec(
            r->Err_0,
            not_json_prefix() + error_description(parse_error(payload@)),
        ),
        payload@.len() == 0 ==> r == Ok::<serde_json::Value, BackendError>(
            parsed_document(empty_object_text()),
        ),
{
    if payload.len() == 0 {
        return Ok(empty_object());
    }
    match parse_document(payload) {
        Ok(arguments) => Ok(arguments),
        Err(e) => {
            let detail = error_text(&e);
            let message = prefixed("execute payload was not JSON: ", detail.as_str());
            Err(BackendError::InvalidSpec { message })
        },
    }
}

/// The `status` label of a finished call: `"ok"` or `"error"`.
pub fn call_status<T>(result: &Result<T, BackendError>) -> (r: &'static str)
    ensures
        r@ == (if result is Ok { "ok"@ } else { "error"@ }),
{
    match result {
        Ok(_) => "ok",
        Err(_) => "error",
    }
}

/// The reply to hand back for an engine's result: a failure passes through
/// unchanged, a document is put on the wire whole.
pub fn frame_reply(surface: BindingSurface, result: Result<serde_json::Value, BackendError>) -> (r:
    Result<BackendResponse, BackendError>)
    ensures
        result is Err ==> r == Err::<BackendResponse, BackendError>(result->Err_0),
        result matches Ok(document) ==> (r matches Ok(response) && response.payload@ == json_text(
            document,
        ) && !response.truncated),
{
    match result {
        Err(e) => Err(e),
        Ok(document) => match encode_document(&document) {
            Ok(payload) => Ok(BackendResponse { payload, truncated: false }),
            Err(e) => {
                let detail = error_text(&e);
                Err(
                    BackendError::Transport {
                        message: prefixed(surface.serialize_error_prefix_str(), detail.as_str()),
                    },
                )
            },
        },
    }
}

} // verus!
