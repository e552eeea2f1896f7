//! Properties that span several operations of the bindings.

use vstd::prelude::*;

use crate::embedding_plugin::CompatEmbeddingPlugin;
use crate::plugin::CompatChatPlugin;
use crate::call::{arguments_of, not_json_message, not_json_prefix};
use crate::json::{
    empty_object_text, error_description, is_json_document, parse_error, parsed_document,
};
use crate::registration::{
    AdapterSettings, Registration, RegistrationEvent, RegistrationStage,
};

verus! {

/// After `install(name, engine)`, looking `name` up yields `engine`, and every
/// other binding resolves exactly as before.
pub proof fn law_chat_lookup_after_install<E>(
    before: CompatChatPlugin<E>,
    name: Seq<char>,
    engine: E,
    other: Seq<char>,
)
    ensures
        before.profiles().insert(name, engine).contains_key(name),
        before.profiles().insert(name, engine)[name] == engine,
        other != name ==> before.profiles().insert(name, engine).contains_key(other)
            == before.profiles().contains_key(other),
        other != name && before.profiles().contains_key(other) ==> before.profiles().insert(
            name,
            engine,
        )[other] == before.profiles()[other],
{
}

/// The same lookup law for embedding bindings.
pub proof fn law_embedding_lookup_after_install<E>(
    before: CompatEmbeddingPlugin<E>,
    name: Seq<char>,
    engine: E,
    other: Seq<char>,
)
    ensures
        before.profiles().insert(name, engine).contains_key(name),
        before.profiles().insert(name, engine)[name] == engine,
        other != name ==> before.profiles().insert(name, engine).contains_key(other)
            == before.profiles().contains_key(other),
        other != name && before.profiles().contains_key(other) ==> before.profiles().insert(
            name,
            engine,
        )[other] == before.profiles()[other],
{
}

/// `registered_profile_count` counts distinct binding names: installing under
/// a new name adds one, re-installing under a known name replaces in place.
pub proof fn law_chat_count_after_install<E>(before: CompatChatPlugin<E>, name: Seq<char>, engine: E)
    ensures
        before.profiles().insert(name, engine).len() == before.profiles().len() + (if before.profiles().contains_key(name) { 0int } else { 1int }),
{
    before.lemma_profiles_finite();
    if before.profiles().contains_key(name) {
        assert(before.profiles().insert(name, engine).dom() =~= before.profiles().dom());
    }
}

/// The same count law for embedding bindings.
pub proof fn law_embedding_count_after_install<E>(
    before: CompatEmbeddingPlugin<E>,
    name: Seq<char>,
    engine: E,
)
    ensures
        before.profiles().insert(name, engine).len() == before.profiles().len() + (if before.profiles().contains_key(name) { 0int } else { 1int }),
{
    before.lemma_profiles_finite();
    if before.profiles().contains_key(name) {
        assert(before.profiles().insert(name, engine).dom() =~= before.profiles().dom());
    }
}

/// A non-empty payload is read whole: when all of its bytes are one JSON
/// document the arguments are exactly that document, and otherwise the
/// refusal describes why all of its bytes are not one.
pub proof fn law_arguments_read_whole_payload(payload: Seq<u8>)
    requires
        payload.len() != 0,
    ensures
        is_json_document(payload) ==> arguments_of(payload) == Some(parsed_document(payload)),
        !is_json_document(payload) ==> arguments_of(payload) is None,
        not_json_message(payload) == not_json_prefix() + error_description(parse_error(payload)),
{
}

/// An empty payload carries the empty object as its arguments.
pub proof fn law_empty_payload_is_empty_object(payload: Seq<u8>)
    requires
        payload.len() == 0,
    ensures
        arguments_of(payload) == Some(parsed_document(empty_object_text())),
{
}

/// The adapter settings a registration asks for are the binding's endpoint
/// and connect timeout and the key it was given, each unchanged, under the
/// `openai-compatible` label.
pub proof fn law_adapter_carries_binding_settings(r: Registration, a: AdapterSettings, key: Seq<char>)
    requires
        r.adapter_for(a, key),
    ensures
        a.base_url@ == r.base_url(),
        a.connect_timeout_ms == r.connect_timeout_ms(),
        a.api_key@ == key,
        a.provider_label@ == "openai-compatible"@,
{
}

/// A refused registration takes no further report and can never be
/// accepted, so it installs nothing: the profile table stays as it was.
pub proof fn law_refused_registration_installs_nothing(r: Registration, event: RegistrationEvent)
    requires
        r.stage() == RegistrationStage::Refused,
    ensures
        !r.expects(event),
        !r.accepted(),
{
}

/// An accepted registration takes no further report: it is installed at
/// most once, as it is consumed by the install.
pub proof fn law_accepted_registration_is_final(r: Registration, event: RegistrationEvent)
    requires
        r.accepted(),
    ensures
        !r.expects(event),
{
}

} // verus!
