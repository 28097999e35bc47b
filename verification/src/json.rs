//! Trusted interface to `serde_json`.
//!
//! JSON values are carried through this crate as opaque `serde_json::Value`s.
//! What the operation layer reads of a value — its compact and pretty
//! serializations, whether it is a JSON string and that string's content —
//! is named by uninterpreted spec functions, and each `serde_json` call the
//! logic makes stands behind one trusted wrapper whose contract speaks over
//! those names.

use vstd::prelude::*;

verus! {

#[verifier::external_type_specification]
#[verifier::external_body]
pub struct ExJsonValue(serde_json::Value);

#[verifier::external_type_specification]
#[verifier::external_body]
pub struct ExJsonError(serde_json::Error);

/// The compact JSON serialization of a value, as `serde_json::to_string`
/// renders it.  It depends on the value alone and models the value's
/// content throughout this crate's contracts.
pub uninterp spec fn json_text(v: serde_json::Value) -> Seq<char>;

/// The pretty-printed JSON serialization of a value, as
/// `serde_json::to_string_pretty` renders it.
pub uninterp spec fn json_text_pretty(v: serde_json::Value) -> Seq<char>;

/// Whether the value is a JSON string.
pub uninterp spec fn is_json_string(v: serde_json::Value) -> bool;

/// The character content of a JSON string value.
pub uninterp spec fn json_string_content(v: serde_json::Value) -> Seq<char>;

/// Whether a text parses as a JSON document.
pub uninterp spec fn json_parses(s: Seq<char>) -> bool;

/// The compact serialization of the value that a JSON text parses to.
pub uninterp spec fn json_parsed_text(s: Seq<char>) -> Seq<char>;

/// Relies on `serde_json::to_string`: the compact rendering of a JSON
/// value is a function of the value alone, and serializing a `Value`
/// cannot fail in this build — its map keys are strings, its numbers
/// are finite by construction, and the writer is an infallible byte
/// vector.
#[verifier::external_body]
pub fn to_json_string(v: &serde_json::Value) -> (r: Result<String, serde_json::Error>)
    ensures
        r is Ok,
        r matches Ok(s) ==> s@ == json_text(*v),
{
    serde_json::to_string(v)
}

/// Relies on `serde_json::to_string_pretty`: the pretty rendering of a
/// JSON value is a function of the value alone and, as with
/// [`to_json_string`], serializing a `Value` cannot fail in this build.
#[verifier::external_body]
pub fn to_json_string_pretty(v: &serde_json::Value) -> (r: Result<String, serde_json::Error>)
    ensures
        r is Ok,
        r matches Ok(s) ==> s@ == json_text_pretty(*v),
{
    serde_json::to_string_pretty(v)
}

/// Relies on `serde_json::from_str::<Value>`: whether a text parses, and
/// the value it parses to, depend on the text alone.
#[verifier::external_body]
pub fn parse_json_text(s: &str) -> (r: Result<serde_json::Value, serde_json::Error>)
    ensures
        r is Ok <==> json_parses(s@),
        r matches Ok(v) ==> json_text(v) == json_parsed_text(s@),
{
    serde_json::from_str(s)
}

/// Relies on `serde_json::Value`'s `Clone`: the clone equals the original.
#[verifier::external_body]
pub fn clone_json(v: &serde_json::Value) -> (r: serde_json::Value)
    ensures
        r == *v,
{
    v.clone()
}

/// Relies on `serde_json::Value::as_str`: it returns the character content
/// exactly when the value is a JSON string.
#[verifier::external_body]
pub fn as_string_value(v: &serde_json::Value) -> (r: Option<String>)
    ensures
        r is Some <==> is_json_string(*v),
        r matches Some(s) ==> s@ == json_string_content(*v),
{
    v.as_str().map(|s| s.to_owned())
}

/// Relies on `Display` for `serde_json::Error`.  The rendered message is
/// opaque to this crate's contracts, so nothing is stated of it.
#[verifier::external_body]
pub fn json_error_message(e: &serde_json::Error) -> String {
    e.to_string()
}

} // verus!
