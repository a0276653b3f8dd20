//! Trusted declarations for the outside crates the codec relies on:
//! base64 for codec headers, and serde_json for parsing inbound text
//! frames. Each wrapper's contract names what the call returns; the
//! verified codec is proved against those names.

use vstd::prelude::*;

verus! {

/// What base64's standard-alphabet, padded encoder returns for a byte
/// sequence.
pub uninterp spec fn b64_encode_of(b: Seq<u8>) -> Seq<char>;

/// What base64's standard-alphabet, padded decoder returns: the decoded
/// bytes, or nothing where the text is not valid base64.
pub uninterp spec fn b64_decode_of(s: Seq<char>) -> Option<Seq<u8>>;

/// Relies on base64's `STANDARD` engine `encode`: the encoding is a
/// function of the input bytes alone.
#[verifier::external_body]
pub(crate) fn b64_encode(b: &[u8]) -> (r: String)
    ensures
        r@ == b64_encode_of(b@),
{
    base64::Engine::encode(&base64::engine::general_purpose::STANDARD, b)
}

/// Relies on base64's `STANDARD` engine `decode`: the outcome is a
/// function of the input text alone.
#[verifier::external_body]
pub(crate) fn b64_decode(s: &str) -> (r: Option<Vec<u8>>)
    ensures
        match r {
            Some(v) => b64_decode_of(s@) == Some(v@),
            None => b64_decode_of(s@) is None,
        },
{
    base64::Engine::decode(&base64::engine::general_purpose::STANDARD, s).ok()
}

/// The string value of the top-level field `key` of `text`, where `text`
/// parses as a JSON object and that field holds a string.
pub uninterp spec fn json_str_of(text: Seq<char>, key: Seq<char>) -> Option<Seq<char>>;

/// The unsigned value of the top-level field `key` of `text`, where it
/// holds an unsigned 64-bit number.
pub uninterp spec fn json_u64_of(text: Seq<char>, key: Seq<char>) -> Option<u64>;

/// The boolean value of the top-level field `key` of `text`.
pub uninterp spec fn json_bool_of(text: Seq<char>, key: Seq<char>) -> Option<bool>;

/// The byte-array value of the top-level field `key` of `text`, where it
/// holds an array of numbers that each fit a byte.
pub uninterp spec fn json_bytes_of(text: Seq<char>, key: Seq<char>) -> Option<Seq<u8>>;

/// Relies on serde_json (`from_str`, `Value::get`, `Value::as_str`):
/// parsing is deterministic, so the result is a function of the two
/// arguments alone.
#[verifier::external_body]
pub(crate) fn json_str_field(text: &str, key: &str) -> (r: Option<String>)
    ensures
        match r {
            Some(s) => json_str_of(text@, key@) == Some(s@),
            None => json_str_of(text@, key@) is None,
        },
{
    serde_json::from_str::<serde_json::Value>(text)
        .ok()
        .and_then(|v| v.get(key).and_then(|f| f.as_str()).map(|s| s.to_string()))
}

/// Relies on serde_json (`from_str`, `Value::get`, `Value::as_u64`):
/// the result is a function of the two arguments alone.
#[verifier::external_body]
pub(crate) fn json_u64_field(text: &str, key: &str) -> (r: Option<u64>)
    ensures
        r == json_u64_of(text@, key@),
{
    serde_json::from_str::<serde_json::Value>(text)
        .ok()
        .and_then(|v| v.get(key).and_then(|f| f.as_u64()))
}

/// Relies on serde_json (`from_str`, `Value::get`, `Value::as_bool`):
/// the result is a function of the two arguments alone.
#[verifier::external_body]
pub(crate) fn json_bool_field(text: &str, key: &str) -> (r: Option<bool>)
    ensures
        r == json_bool_of(text@, key@),
{
    serde_json::from_str::<serde_json::Value>(text)
        .ok()
        .and_then(|v| v.get(key).and_then(|f| f.as_bool()))
}

/// Relies on serde_json (`from_str`, `Value::get`, `from_value` for
/// `Vec<u8>`): the result is a function of the two arguments alone.
#[verifier::external_body]
pub(crate) fn json_bytes_field(text: &str, key: &str) -> (r: Option<Vec<u8>>)
    ensures
        match r {
            Some(v) => json_bytes_of(text@, key@) == Some(v@),
            None => json_bytes_of(text@, key@) is None,
        },
{
    serde_json::from_str::<serde_json::Value>(text)
        .ok()
        .and_then(|v| v.get(key).cloned())
        .and_then(|f| serde_json::from_value::<Vec<u8>>(f).ok())
}

} // verus!
