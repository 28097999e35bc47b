//! The public option and response records of the operation layer.
//!
//! Every recognized option is an explicit field; an absent field means
//! "use the codec's default".  The option translator resolves these
//! records into fully-determined settings before any codec call.

use crate::errors::ValidationError;
use vstd::prelude::*;

verus! {

/// The delimiter placed between array elements in encoded output.
#[derive(Clone, Copy, Debug, PartialEq, Eq, Structural)]
pub enum DelimiterChoice {
    Comma,
    Tab,
    Pipe,
}

/// The delimiter character each choice stands for.
pub open spec fn delimiter_char(d: DelimiterChoice) -> char {
    match d {
        DelimiterChoice::Comma => ',',
        DelimiterChoice::Tab => '\t',
        DelimiterChoice::Pipe => '|',
    }
}

/// Encoding options as a client supplies them on the wire.
#[derive(Clone, Debug)]
pub struct EncodeOptionsInput {
    /// Delimiter token: exactly "tab" or "pipe" select those delimiters;
    /// anything else (including absence) falls back to comma.
    pub delimiter: Option<String>,
    /// Spaces of indentation, clamped to at most 8; absent means the
    /// codec default.
    pub indent: Option<u8>,
    /// Request safe key folding; absent means off.
    pub fold_keys: Option<bool>,
    /// Maximum folding depth; absent means no explicit bound.
    pub flatten_depth: Option<usize>,
}

impl Default for EncodeOptionsInput {
    /// All options absent: every setting resolves to its default.
    fn default() -> (r: Self)
        ensures
            r.delimiter is None,
            r.indent is None,
            r.fold_keys is None,
            r.flatten_depth is None,
    {
        EncodeOptionsInput { delimiter: None, indent: None, fold_keys: None, flatten_depth: None }
    }
}

/// Request to encode a JSON value to TOON text.
#[derive(Debug)]
pub struct EncodeRequest {
    /// JSON to encode (an object, an array, or a JSON string holding a
    /// JSON document).
    pub json: serde_json::Value,
    /// Delimiter token: "comma" (default), "tab", or "pipe".
    pub delimiter: Option<String>,
    /// Spaces of indentation (0-8, default 2).
    pub indent: Option<u8>,
    /// Request safe key folding.
    pub fold_keys: Option<bool>,
    /// Maximum folding depth.
    pub flatten_depth: Option<usize>,
}

/// Request to decode TOON text back to a JSON value.
#[derive(Debug)]
pub struct DecodeRequest {
    /// TOON text to decode.
    pub toon: String,
    /// Strict validation (absent means the codec default, which is on).
    pub strict: Option<bool>,
    /// Type coercion (absent means the codec default, which is on).
    pub coerce_types: Option<bool>,
    /// Path expansion (absent means off).
    pub expand_paths: Option<bool>,
    /// Output rendering: "json_pretty" for pretty-printed text; anything
    /// else (including absence) yields compact text.
    pub output_format: Option<String>,
}

/// Request to validate TOON text.
#[derive(Debug)]
pub struct ValidateRequest {
    /// TOON text to validate.
    pub toon: String,
    /// Strict validation (absent means the codec default, which is on).
    pub strict: Option<bool>,
}

/// Request to compare JSON and TOON statistics.
#[derive(Debug)]
pub struct StatsRequest {
    /// JSON to analyze.
    pub json: serde_json::Value,
    /// Encoding options to apply when producing the TOON text.
    pub encode_options: EncodeOptionsInput,
}

/// Fully-resolved encode settings, as the option translator hands them on.
#[derive(Clone, Debug, PartialEq, Eq, Structural)]
pub struct EncodeSettings {
    /// The delimiter the codec will use.
    pub delimiter: DelimiterChoice,
    /// Spaces of indentation, at most 8.
    pub spaces: u8,
    /// Whether safe key folding was requested.  This codec revision
    /// exposes no folding switch, so the flag does not reach it.
    pub fold_keys: bool,
    /// The requested folding depth bound, if any.  As with `fold_keys`,
    /// this codec revision has no parameter for it.
    pub flatten_depth: Option<usize>,
}

/// Fully-resolved decode settings, as the option translator hands them on.
#[derive(Clone, Copy, Debug, PartialEq, Eq, Structural)]
pub struct DecodeSettings {
    /// Strict validation.
    pub strict: bool,
    /// Type coercion.  This codec revision always coerces scalar tokens;
    /// the resolved flag records the client's choice all the same.
    pub coerce_types: bool,
    /// Safe path expansion.  This codec revision exposes no expansion
    /// switch, so the flag does not reach it.
    pub expand_paths: bool,
}

/// Result of the validate operation.  Invalid input is a normal result,
/// never a failure of the operation itself.
#[derive(Clone, Debug, PartialEq, Eq)]
pub struct ValidateResponse {
    /// Whether the TOON text decoded.
    pub valid: bool,
    /// Error details, present exactly when the text did not decode.
    pub error: Option<ValidationError>,
}

/// Response carrying encoded TOON text.
#[derive(Debug)]
pub struct EncodeResponse {
    /// The encoded TOON text.
    pub toon: String,
}

/// Response carrying a decoded JSON value.
#[derive(Debug)]
pub struct DecodeResponse {
    /// The decoded JSON value.
    pub json: serde_json::Value,
}

/// Statistics for one serialization of a value.
#[derive(Clone, Copy, Debug, PartialEq, Eq, Structural)]
pub struct FormatStats {
    /// Size in bytes.
    pub bytes: usize,
    /// Approximate token count.
    pub tokens_approx: usize,
}

/// Savings of TOON text over compact JSON text, in hundredths of a
/// percent, rounded half away from zero.
#[derive(Clone, Copy, Debug, PartialEq, Eq, Structural)]
pub struct SavingsStats {
    /// Byte savings, in hundredths of a percent.
    pub bytes_percent: i128,
    /// Token savings, in hundredths of a percent.
    pub tokens_percent: i128,
}

/// Response comparing JSON and TOON serializations of one value.
#[derive(Clone, Copy, Debug, PartialEq, Eq, Structural)]
pub struct StatsResponse {
    /// Compact JSON statistics.
    pub json: FormatStats,
    /// TOON statistics.
    pub toon: FormatStats,
    /// Savings of TOON over JSON.
    pub savings: SavingsStats,
}

/// Service health report.
#[derive(Clone, Debug)]
pub struct HealthResponse {
    /// Service status.
    pub status: String,
    /// Service version.
    pub version: String,
}

} // verus!
