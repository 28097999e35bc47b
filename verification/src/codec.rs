//! Trusted interface to the `toon_format` codec.
//!
//! The codec's grammar is not this crate's subject: what `encode` and
//! `decode` return is named by uninterpreted spec functions of their
//! arguments, and each call stands behind one trusted wrapper.  The
//! codec's error value is mirrored, variant for variant, into a plain
//! enum so that verified code can classify it.

use crate::json::json_text;
use crate::text::dec_str;
use crate::text::usize_to_string;
use crate::types::delimiter_char;
use crate::types::DelimiterChoice;
use vstd::prelude::*;
use vstd::string::StringExecFns;

verus! {

#[verifier::external_type_specification]
#[verifier::external_body]
pub struct ExToonError(toon_format::ToonError);

/// Whether the codec encodes the value, under the given delimiter
/// character and indent width.
pub uninterp spec fn encode_ok(v: serde_json::Value, delim: char, spaces: u8) -> bool;

/// The TOON text the codec produces for the value, under the given
/// delimiter character and indent width.
pub uninterp spec fn encode_text(v: serde_json::Value, delim: char, spaces: u8) -> Seq<char>;

/// Whether the codec decodes the text, under the given strictness.
pub uninterp spec fn decode_ok(text: Seq<char>, strict: bool) -> bool;

/// The compact JSON serialization of the value the codec decodes the
/// text to, under the given strictness.
pub uninterp spec fn decode_text(text: Seq<char>, strict: bool) -> Seq<char>;

/// Relies on `toon_format::encode`: with options fully determined by the
/// given delimiter and indent width, the result depends on the value and
/// those two settings alone.
#[verifier::external_body]
pub fn codec_encode(v: &serde_json::Value, delim: DelimiterChoice, spaces: u8) -> (r: Result<
    String,
    toon_format::ToonError,
>)
    ensures
        r is Ok <==> encode_ok(*v, delimiter_char(delim), spaces),
        r matches Ok(t) ==> t@ == encode_text(*v, delimiter_char(delim), spaces),
{
    let d = match delim {
        DelimiterChoice::Comma => toon_format::Delimiter::Comma,
        DelimiterChoice::Tab => toon_format::Delimiter::Tab,
        DelimiterChoice::Pipe => toon_format::Delimiter::Pipe,
    };
    let opts = toon_format::EncodeOptions::new().with_delimiter(d).with_spaces(spaces as usize);
    toon_format::encode(v, &opts)
}

/// Relies on `toon_format::decode::<serde_json::Value>`: with options
/// fully determined by the given strictness, the result depends on the
/// text and that setting alone.
#[verifier::external_body]
pub fn codec_decode(text: &str, strict: bool) -> (r: Result<
    serde_json::Value,
    toon_format::ToonError,
>)
    ensures
        r is Ok <==> decode_ok(text@, strict),
        r matches Ok(v) ==> json_text(v) == decode_text(text@, strict),
{
    let opts = toon_format::DecodeOptions::new().with_strict(strict);
    toon_format::decode::<serde_json::Value>(text, &opts)
}

/// The codec's error, mirrored into plain values.
///
/// `Parse` keeps the position, the message, and the suggestion that the
/// codec's error context carried, if any; each other variant carries its
/// message fields unchanged.
#[derive(Clone, Debug)]
pub enum CodecError {
    Parse { line: usize, column: usize, message: String, suggestion: Option<String> },
    InvalidInput(String),
    TypeMismatch { expected: String, found: String },
    InvalidStructure(String),
    Serialization(String),
    Deserialization(String),
}

/// Relies on the variant structure of `toon_format::ToonError`: each arm
/// moves the fields of one variant into the mirror, and `Parse` projects
/// the suggestion out of the optional error context.
#[verifier::external_body]
pub fn mirror_codec_error(e: toon_format::ToonError) -> CodecError {
    match e {
        toon_format::ToonError::ParseError { line, column, message, context } => {
            CodecError::Parse { line, column, message, suggestion: context.and_then(|c| c.suggestion) }
        },
        toon_format::ToonError::InvalidInput(m) => CodecError::InvalidInput(m),
        toon_format::ToonError::TypeMismatch { expected, found } => {
            CodecError::TypeMismatch { expected, found }
        },
        toon_format::ToonError::InvalidStructure(m) => CodecError::InvalidStructure(m),
        toon_format::ToonError::SerializationError(m) => CodecError::Serialization(m),
        toon_format::ToonError::DeserializationError(m) => CodecError::Deserialization(m),
    }
}

/// The message the codec's own `Display` gives the mirrored error: the
/// format strings below are those of `toon_format::ToonError`.
pub open spec fn spec_codec_message(e: CodecError) -> Seq<char> {
    match e {
        CodecError::Parse { line, column, message, suggestion } => "Parse error at line "@
            + dec_str(line as int) + ", column "@ + dec_str(column as int) + ": "@ + message@,
        CodecError::InvalidInput(m) => "Invalid input: "@ + m@,
        CodecError::TypeMismatch { expected, found } => "Type mismatch: expected "@ + expected@
            + ", found "@ + found@,
        CodecError::InvalidStructure(m) => "Invalid structure: "@ + m@,
        CodecError::Serialization(m) => "Serialization error: "@ + m@,
        CodecError::Deserialization(m) => "Deserialization error: "@ + m@,
    }
}

/// Renders the mirrored error exactly as the codec's own `Display`
/// renders the original.
pub fn codec_message(e: &CodecError) -> (r: String)
    ensures
        r@ == spec_codec_message(*e),
{
    proof {
        reveal_strlit("Parse error at line ");
        reveal_strlit(", column ");
        reveal_strlit(": ");
        reveal_strlit("Invalid input: ");
        reveal_strlit("Type mismatch: expected ");
        reveal_strlit(", found ");
        reveal_strlit("Invalid structure: ");
        reveal_strlit("Serialization error: ");
        reveal_strlit("Deserialization error: ");
    }
    match e {
        CodecError::Parse { line, column, message, suggestion: _ } => String::from_str(
            "Parse error at line ",
        ).concat(usize_to_string(*line).as_str()).concat(", column ").concat(
            usize_to_string(*column).as_str(),
        ).concat(": ").concat(message.as_str()),
        CodecError::InvalidInput(m) => String::from_str("Invalid input: ").concat(m.as_str()),
        CodecError::TypeMismatch { expected, found } => String::from_str(
            "Type mismatch: expected ",
        ).concat(expected.as_str()).concat(", found ").concat(found.as_str()),
        CodecError::InvalidStructure(m) => String::from_str("Invalid structure: ").concat(
            m.as_str(),
        ),
        CodecError::Serialization(m) => String::from_str("Serialization error: ").concat(
            m.as_str(),
        ),
        CodecError::Deserialization(m) => String::from_str("Deserialization error: ").concat(
            m.as_str(),
        ),
    }
}

} // verus!
