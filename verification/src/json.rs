//! JSON documents, handled through `serde_json`.

use vstd::prelude::*;

verus! {

/// A JSON document (`serde_json::Value`), carried through unopened.
#[verifier::external_type_specification]
#[verifier::external_body]
pub struct ExJsonValue(serde_json::Value);

/// Why `serde_json` refused a document.
#[verifier::external_type_specification]
#[verifier::external_body]
pub struct ExJsonError(serde_json::Error);

/// Whether `bytes` is one complete JSON document, as `serde_json` reads it
/// into a `serde_json::Value`.
pub uninterp spec fn is_json_document(bytes: Seq<u8>) -> bool;

/// The document `serde_json` reads from `bytes`, where they are one.
pub uninterp spec fn parsed_document(bytes: Seq<u8>) -> serde_json::Value;

/// Why `serde_json` refuses `bytes`, where they are not one JSON document.
pub uninterp spec fn parse_error(bytes: Seq<u8>) -> serde_json::Error;

/// The description `serde_json` gives of `error`: what went wrong and, where
/// the input was read, at which line and column.
pub uninterp spec fn error_description(error: serde_json::Error) -> Seq<char>;

/// The JSON text `serde_json` writes for `document`.
pub uninterp spec fn json_text(document: serde_json::Value) -> Seq<u8>;

/// The member of an object `document` under `key`; `None` where `document`
/// is not an object or has no such member.
pub uninterp spec fn json_member(document: serde_json::Value, key: Seq<char>) -> Option<
    serde_json::Value,
>;

/// The two bytes `{}`: the empty object's JSON text.
pub open spec fn empty_object_text() -> Seq<u8> {
    seq![0x7Bu8, 0x7Du8]
}

/// `serde_json::from_slice::<Value>`: succeeds exactly on the byte strings
/// that are a JSON document, with the document they hold.
#[verifier::external_body]
pub(crate) fn parse_document(bytes: &[u8]) -> (r: Result<serde_json::Value, serde_json::Error>)
    ensures
        r is Ok <==> is_json_document(bytes@),
        r matches Ok(v) ==> v == parsed_document(bytes@),
        r matches Err(e) ==> e == parse_error(bytes@),
{
    serde_json::from_slice(bytes)
}

/// `serde_json::Value::Object(serde_json::Map::new())`: the empty object,
/// the document `serde_json` reads from `{}`.
#[verifier::external_body]
pub(crate) fn empty_object() -> (r: serde_json::Value)
    ensures
        r == parsed_document(empty_object_text()),
{
    serde_json::Value::Object(serde_json::Map::new())
}

/// `serde_json::to_vec` on a document: its JSON text. Writing a `Value`
/// into a `Vec` does not fail, since its object keys are strings and the
/// writer cannot fail.
#[verifier::external_body]
pub(crate) fn encode_document(document: &serde_json::Value) -> (r: Result<Vec<u8>, serde_json::Error>)
    ensures
        r is Ok,
        r matches Ok(bytes) ==> bytes@ == json_text(*document),
{
    serde_json::to_vec(document)
}

/// `serde_json::Value::get` with a string key, cloned out.
#[verifier::external_body]
pub(crate) fn member(document: &serde_json::Value, key: &str) -> (r: Option<serde_json::Value>)
    ensures
        r == json_member(*document, key@),
{
    document.get(key).cloned()
}

/// `<serde_json::Error as Display>`: the error's description.
#[verifier::external_body]
pub(crate) fn error_text(error: &serde_json::Error) -> (r: String)
    ensures
        r@ == error_description(*error),
{
    error.to_string()
}

} // verus!
