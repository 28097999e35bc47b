//! The closed error taxonomy of the operation layer.
//!
//! Every codec failure is classified into exactly one variant of
//! [`ToonCoreError`]; no variant is a raw string seen from outside, and a
//! parse failure always keeps the position the codec supplied.

use crate::codec::spec_codec_message;
use crate::codec::codec_message;
use crate::codec::CodecError;
use crate::text::dec_str;
use crate::text::usize_to_string;
use vstd::prelude::*;
use vstd::string::StringExecFns;

verus! {

/// Error type for the core TOON operations.
#[derive(Clone, Debug, PartialEq, Eq)]
pub enum ToonCoreError {
    /// A positioned parse failure, with the codec's suggestion if it
    /// carried one.
    ParseError { message: String, line: usize, column: usize, suggestion: Option<String> },
    /// A tabular row or array whose element count disagrees with its
    /// declared length.
    LengthMismatch { expected: usize, found: usize },
    /// The codec refused to encode; the message is the codec's own.
    EncodeError(String),
    /// Any other codec decode failure, rendered as text.
    DecodeError(String),
    /// A string input that is not valid JSON text.
    InvalidJson(String),
    /// JSON re-serialization failed.
    SerializationError(String),
}

/// The rendered message of each error variant.
pub open spec fn spec_core_error_message(e: ToonCoreError) -> Seq<char> {
    match e {
        ToonCoreError::ParseError { message, line, column, suggestion } => "Parse error at line "@
            + dec_str(line as int) + ", column "@ + dec_str(column as int) + ": "@ + message@,
        ToonCoreError::LengthMismatch { expected, found } => "Array length mismatch: expected "@
            + dec_str(expected as int) + ", found "@ + dec_str(found as int),
        ToonCoreError::EncodeError(m) => "Encoding failed: "@ + m@,
        ToonCoreError::DecodeError(m) => "Decoding failed: "@ + m@,
        ToonCoreError::InvalidJson(m) => "Invalid JSON: "@ + m@,
        ToonCoreError::SerializationError(m) => "Serialization failed: "@ + m@,
    }
}

impl ToonCoreError {
    /// Classify a codec failure into the taxonomy: a positioned parse
    /// failure keeps its position and suggestion; every other codec
    /// variant becomes a `DecodeError` carrying the codec's rendered
    /// message.  The mapping is total over the codec's error type.
    pub fn of_codec(e: CodecError) -> (r: ToonCoreError)
        ensures
            match e {
                CodecError::Parse { line, column, message, suggestion } => r
                    == (ToonCoreError::ParseError { message, line, column, suggestion }),
                _ => r matches ToonCoreError::DecodeError(m) && m@ == spec_codec_message(e),
            },
    {
        match e {
            CodecError::Parse { line, column, message, suggestion } => ToonCoreError::ParseError {
                message,
                line,
                column,
                suggestion,
            },
            other => ToonCoreError::DecodeError(codec_message(&other)),
        }
    }

    /// Renders the error as text, matching [`spec_core_error_message`].
    pub fn message(&self) -> (r: String)
        ensures
            r@ == spec_core_error_message(*self),
    {
        proof {
            reveal_strlit("Parse error at line ");
            reveal_strlit(", column ");
            reveal_strlit(": ");
            reveal_strlit("Array length mismatch: expected ");
            reveal_strlit(", found ");
            reveal_strlit("Encoding failed: ");
            reveal_strlit("Decoding failed: ");
            reveal_strlit("Invalid JSON: ");
            reveal_strlit("Serialization failed: ");
        }
        match self {
            ToonCoreError::ParseError { message, line, column, suggestion: _ } => String::from_str(
                "Parse error at line ",
            ).concat(usize_to_string(*line).as_str()).concat(", column ").concat(
                usize_to_string(*column).as_str(),
            ).concat(": ").concat(message.as_str()),
            ToonCoreError::LengthMismatch { expected, found } => String::from_str(
                "Array length mismatch: expected ",
            ).concat(usize_to_string(*expected).as_str()).concat(", found ").concat(
                usize_to_string(*found).as_str(),
            ),
            ToonCoreError::EncodeError(m) => String::from_str("Encoding failed: ").concat(
                m.as_str(),
            ),
            ToonCoreError::DecodeError(m) => String::from_str("Decoding failed: ").concat(
                m.as_str(),
            ),
            ToonCoreError::InvalidJson(m) => String::from_str("Invalid JSON: ").concat(m.as_str()),
            ToonCoreError::SerializationError(m) => String::from_str(
                "Serialization failed: ",
            ).concat(m.as_str()),
        }
    }
}

/// Validation error details, as the validate operation reports them.
#[derive(Clone, Debug, PartialEq, Eq)]
pub struct ValidationError {
    /// Error message.
    pub message: String,
    /// Line where the error occurred, when the codec reported one.
    pub line: Option<usize>,
    /// Column where the error occurred, when the codec reported one.
    pub column: Option<usize>,
    /// A suggestion to fix the error, when one is available.
    pub suggestion: Option<String>,
}

/// The suggestion text a length mismatch is reported with.
pub open spec fn spec_mismatch_suggestion(expected: int, found: int) -> Seq<char> {
    "Expected "@ + dec_str(expected) + " items but found "@ + dec_str(found)
}

impl ValidationError {
    /// Turn a classified error into validation detail: a parse error
    /// keeps its position, a length mismatch restates its counts, and
    /// everything else is the rendered message with no position.
    pub fn from_core_error(e: ToonCoreError) -> (r: ValidationError)
        ensures
            match e {
                ToonCoreError::ParseError { message, line, column, suggestion } => r
                    == (ValidationError {
                    message,
                    line: Some(line),
                    column: Some(column),
                    suggestion,
                }),
                ToonCoreError::LengthMismatch { expected, found } => {
                    &&& r.message@ == spec_core_error_message(e)
                    &&& r.line is None
                    &&& r.column is None
                    &&& r.suggestion matches Some(s) && s@ == spec_mismatch_suggestion(
                        expected as int,
                        found as int,
                    )
                },
                _ => {
                    &&& r.message@ == spec_core_error_message(e)
                    &&& r.line is None
                    &&& r.column is None
                    &&& r.suggestion is None
                },
            },
    {
        proof {
            reveal_strlit("Expected ");
            reveal_strlit(" items but found ");
        }
        match e {
            ToonCoreError::ParseError { message, line, column, suggestion } => ValidationError {
                message,
                line: Some(line),
                column: Some(column),
                suggestion,
            },
            ToonCoreError::LengthMismatch { expected, found } => {
                let suggestion = String::from_str("Expected ").concat(
                    usize_to_string(expected).as_str(),
                ).concat(" items but found ").concat(usize_to_string(found).as_str());
                ValidationError {
                    message: ToonCoreError::LengthMismatch { expected, found }.message(),
                    line: None,
                    column: None,
                    suggestion: Some(suggestion),
                }
            },
            other => ValidationError {
                message: other.message(),
                line: None,
                column: None,
                suggestion: None,
            },
        }
    }
}

/// Coarse error type kept for transport callers.
#[derive(Clone, Debug, PartialEq, Eq)]
pub enum ToonMcpError {
    /// Encoding failed.
    Encode(String),
    /// Decoding failed.
    Decode(String),
    /// The input was rejected before any codec call.
    InvalidInput(String),
}

/// The rendered message of each transport-level error variant.
pub open spec fn spec_mcp_error_message(e: ToonMcpError) -> Seq<char> {
    match e {
        ToonMcpError::Encode(m) => "Encoding error: "@ + m@,
        ToonMcpError::Decode(m) => "Decoding error: "@ + m@,
        ToonMcpError::InvalidInput(m) => "Invalid input: "@ + m@,
    }
}

impl ToonMcpError {
    /// Renders the error as text, matching [`spec_mcp_error_message`].
    pub fn message(&self) -> (r: String)
        ensures
            r@ == spec_mcp_error_message(*self),
    {
        proof {
            reveal_strlit("Encoding error: ");
            reveal_strlit("Decoding error: ");
            reveal_strlit("Invalid input: ");
        }
        match self {
            ToonMcpError::Encode(m) => String::from_str("Encoding error: ").concat(m.as_str()),
            ToonMcpError::Decode(m) => String::from_str("Decoding error: ").concat(m.as_str()),
            ToonMcpError::InvalidInput(m) => String::from_str("Invalid input: ").concat(
                m.as_str(),
            ),
        }
    }
}

} // verus!
