//! The operation facade: the four pure operations (encode, decode,
//! validate, stats) and the option translation and input normalization
//! they compose.  These are the only entry points a transport calls.

use crate::codec::codec_decode;
use crate::codec::codec_encode;
use crate::codec::codec_message;
use crate::codec::decode_ok;
use crate::codec::decode_text;
use crate::codec::encode_ok;
use crate::codec::encode_text;
use crate::codec::mirror_codec_error;
use crate::errors::ToonCoreError;
use crate::errors::ValidationError;
use crate::estimator::estimate_tokens;
use crate::estimator::token_count;
use crate::json::as_string_value;
use crate::json::clone_json;
use crate::json::is_json_string;
use crate::json::json_error_message;
use crate::json::json_parsed_text;
use crate::json::json_parses;
use crate::json::json_string_content;
use crate::json::json_text;
use crate::json::json_text_pretty;
use crate::json::parse_json_text;
use crate::json::to_json_string;
use crate::json::to_json_string_pretty;
use crate::text::str_eq;
use crate::types::delimiter_char;
use crate::types::DecodeRequest;
use crate::types::DecodeSettings;
use crate::types::DelimiterChoice;
use crate::types::EncodeOptionsInput;
use crate::types::EncodeSettings;
use crate::types::FormatStats;
use crate::types::SavingsStats;
use crate::types::StatsResponse;
use crate::types::ValidateResponse;
use vstd::prelude::*;
use vstd::utf8::encode_utf8;

verus! {

/// The delimiter a client's token selects: exactly "tab" and "pipe"
/// select those delimiters; anything else, including absence, falls back
/// to comma.  Total over all inputs — an unrecognized token is never an
/// error.
pub open spec fn chosen_delimiter(d: Option<String>) -> DelimiterChoice {
    match d {
        Some(s) => if s@ == "tab"@ {
            DelimiterChoice::Tab
        } else if s@ == "pipe"@ {
            DelimiterChoice::Pipe
        } else {
            DelimiterChoice::Comma
        },
        None => DelimiterChoice::Comma,
    }
}

/// The indent width the codec is given: the client's value clamped to at
/// most 8 spaces, or the codec's default of 2 when absent.
pub open spec fn chosen_spaces(indent: Option<u8>) -> u8 {
    match indent {
        Some(i) => if i < 8 {
            i
        } else {
            8
        },
        None => 2,
    }
}

/// Strictness handed to the codec: an absent flag means the codec
/// default, which is strict.
pub open spec fn effective_strict(strict: Option<bool>) -> bool {
    match strict {
        Some(b) => b,
        None => true,
    }
}

/// Build fully-resolved encode settings from the client's options.
pub fn build_encode_options(input: &EncodeOptionsInput) -> (r: EncodeSettings)
    ensures
        r.delimiter == chosen_delimiter(input.delimiter),
        r.spaces == chosen_spaces(input.indent),
        r.fold_keys == (input.fold_keys == Some(true)),
        r.flatten_depth == input.flatten_depth,
{
    let delimiter = match &input.delimiter {
        Some(s) => {
            if str_eq(s.as_str(), "tab") {
                DelimiterChoice::Tab
            } else if str_eq(s.as_str(), "pipe") {
                DelimiterChoice::Pipe
            } else {
                DelimiterChoice::Comma
            }
        },
        None => DelimiterChoice::Comma,
    };
    let spaces = match input.indent {
        Some(i) => if i < 8 {
            i
        } else {
            8
        },
        None => 2,
    };
    let fold_keys = match input.fold_keys {
        Some(b) => b,
        None => false,
    };
    EncodeSettings { delimiter, spaces, fold_keys, flatten_depth: input.flatten_depth }
}

/// Build fully-resolved decode settings from the client's request.
pub fn build_decode_options(request: &DecodeRequest) -> (r: DecodeSettings)
    ensures
        r.strict == effective_strict(request.strict),
        r.coerce_types == (request.coerce_types != Some(false)),
        r.expand_paths == (request.expand_paths == Some(true)),
{
    let strict = match request.strict {
        Some(b) => b,
        None => true,
    };
    let coerce_types = match request.coerce_types {
        Some(b) => b,
        None => true,
    };
    let expand_paths = match request.expand_paths {
        Some(b) => b,
        None => false,
    };
    DecodeSettings { strict, coerce_types, expand_paths }
}

/// Resolve a client's JSON payload to a concrete value: a JSON string is
/// reparsed as a JSON document (tolerating double-encoded input), and any
/// other value is returned unchanged.  Only the outermost value is ever
/// reinterpreted — a string nested inside an object stays a string.
pub fn parse_json_input(value: &serde_json::Value) -> (r: Result<
    serde_json::Value,
    ToonCoreError,
>)
    ensures
        !is_json_string(*value) ==> (r matches Ok(v) && v == *value),
        is_json_string(*value) ==> {
            &&& (r is Ok <==> json_parses(json_string_content(*value)))
            &&& (r matches Ok(v) ==> json_text(v) == json_parsed_text(json_string_content(*value)))
            &&& (r matches Err(e) ==> e matches ToonCoreError::InvalidJson(_))
        },
{
    match as_string_value(value) {
        Some(s) => match parse_json_text(s.as_str()) {
            Ok(v) => Ok(v),
            Err(e) => Err(ToonCoreError::InvalidJson(json_error_message(&e))),
        },
        None => Ok(clone_json(value)),
    }
}

/// Encode a JSON value to TOON text under the client's options.
pub fn encode_json(json: &serde_json::Value, options: &EncodeOptionsInput) -> (r: Result<
    String,
    ToonCoreError,
>)
    ensures
        ({
            let delim = delimiter_char(chosen_delimiter(options.delimiter));
            let spaces = chosen_spaces(options.indent);
            &&& (r is Ok <==> encode_ok(*json, delim, spaces))
            &&& (r matches Ok(t) ==> t@ == encode_text(*json, delim, spaces))
            &&& (r matches Err(e) ==> e matches ToonCoreError::EncodeError(_))
        }),
{
    let settings = build_encode_options(options);
    match codec_encode(json, settings.delimiter, settings.spaces) {
        Ok(t) => Ok(t),
        Err(e) => {
            let mirrored = mirror_codec_error(e);
            Err(ToonCoreError::EncodeError(codec_message(&mirrored)))
        },
    }
}

/// Decode TOON text to a JSON value under the client's request options.
pub fn decode_toon(toon: &str, request: &DecodeRequest) -> (r: Result<
    serde_json::Value,
    ToonCoreError,
>)
    ensures
        ({
            let strict = effective_strict(request.strict);
            &&& (r is Ok <==> decode_ok(toon@, strict))
            &&& (r matches Ok(v) ==> json_text(v) == decode_text(toon@, strict))
            &&& (r matches Err(e) ==> (e matches ToonCoreError::ParseError { .. } || e matches
            ToonCoreError::DecodeError(_)))
        }),
{
    let settings = build_decode_options(request);
    match codec_decode(toon, settings.strict) {
        Ok(v) => Ok(v),
        Err(e) => Err(ToonCoreError::of_codec(mirror_codec_error(e))),
    }
}

/// Validate TOON text without returning the decoded value.  Invalidity
/// is a normal result: the operation itself never fails, and error
/// details are present exactly when the text does not decode.  The
/// detail carries a position as a line-and-column pair or not at all,
/// never half of one.
pub fn validate_toon(toon: &str, strict: Option<bool>) -> (r: ValidateResponse)
    ensures
        r.valid <==> decode_ok(toon@, effective_strict(strict)),
        r.valid <==> r.error is None,
        r.error matches Some(d) ==> (d.line is Some <==> d.column is Some),
{
    let strict_flag = match strict {
        Some(b) => b,
        None => true,
    };
    match codec_decode(toon, strict_flag) {
        Ok(_) => ValidateResponse { valid: true, error: None },
        Err(e) => ValidateResponse {
            valid: false,
            error: Some(
                ValidationError::from_core_error(ToonCoreError::of_codec(mirror_codec_error(e))),
            ),
        },
    }
}

/// Render a decoded value according to the client's output preference:
/// exactly "json_pretty" selects pretty-printed text, and any other
/// preference (including absence) selects compact text.  Rendering a
/// JSON value cannot fail, so the operation always succeeds; the
/// `SerializationError` arm stays only to model the operation's error
/// type explicitly.
pub fn format_json_output(value: &serde_json::Value, output_format: Option<&str>) -> (r: Result<
    String,
    ToonCoreError,
>)
    ensures
        ({
            let pretty = match output_format {
                Some(f) => f@ == "json_pretty"@,
                None => false,
            };
            &&& (r matches Ok(t) && (pretty ==> t@ == json_text_pretty(*value)) && (!pretty
                ==> t@ == json_text(*value)))
        }),
{
    let pretty = match output_format {
        Some(f) => str_eq(f, "json_pretty"),
        None => false,
    };
    let rendered = if pretty {
        to_json_string_pretty(value)
    } else {
        to_json_string(value)
    };
    match rendered {
        Ok(t) => Ok(t),
        Err(e) => Err(ToonCoreError::SerializationError(json_error_message(&e))),
    }
}

/// Percentage savings of `after` over `before`, in hundredths of a
/// percent: `(before - after) / before * 10000`, rounded half away from
/// zero, and defined as zero when `before` is zero so that no division
/// by zero can arise.
pub open spec fn spec_pct_x100(before: int, after: int) -> int {
    if before <= 0 {
        0
    } else if after <= before {
        ((before - after) * 20000 + before) / (2 * before)
    } else {
        -(((after - before) * 20000 + before) / (2 * before))
    }
}

/// Computes [`spec_pct_x100`] on machine integers.
pub fn savings_pct_x100(before: usize, after: usize) -> (r: i128)
    ensures
        r == spec_pct_x100(before as int, after as int),
        before == 0 ==> r == 0,
{
    if before == 0 {
        0
    } else if after <= before {
        let d: u128 = (before - after) as u128;
        let b: u128 = before as u128;
        proof {
            assert(d * 20000 + b < u128::MAX) by (nonlinear_arith)
                requires
                    d < 0x1_0000_0000_0000_0000u128,
                    b < 0x1_0000_0000_0000_0000u128,
            ;
            assert((d * 20000 + b) / (2 * b) <= d * 20000 + b) by (nonlinear_arith)
                requires
                    b >= 1,
            ;
        }
        let q: u128 = (d * 20000 + b) / (2 * b);
        q as i128
    } else {
        let d: u128 = (after - before) as u128;
        let b: u128 = before as u128;
        proof {
            assert(d * 20000 + b < u128::MAX) by (nonlinear_arith)
                requires
                    d < 0x1_0000_0000_0000_0000u128,
                    b < 0x1_0000_0000_0000_0000u128,
            ;
            assert((d * 20000 + b) / (2 * b) <= d * 20000 + b) by (nonlinear_arith)
                requires
                    b >= 1,
            ;
        }
        let q: u128 = (d * 20000 + b) / (2 * b);
        -(q as i128)
    }
}

/// Compare compact JSON and TOON serializations of a value: byte sizes,
/// estimated token counts, and the percentage savings of TOON over JSON.
/// Serializing a JSON value cannot fail (the `SerializationError` arm
/// stays only to model that failure explicitly), so the operation
/// succeeds exactly when the codec encodes the value; an encode failure
/// propagates unchanged.
pub fn compute_stats(json: &serde_json::Value, options: &EncodeOptionsInput) -> (r: Result<
    StatsResponse,
    ToonCoreError,
>)
    ensures
        ({
            let delim = delimiter_char(chosen_delimiter(options.delimiter));
            let spaces = chosen_spaces(options.indent);
            let jtext = json_text(*json);
            let ttext = encode_text(*json, delim, spaces);
            &&& (r matches Ok(st) ==> {
                &&& encode_ok(*json, delim, spaces)
                &&& st.json.bytes == encode_utf8(jtext).len() as usize
                &&& st.json.tokens_approx == token_count(jtext)
                &&& st.toon.bytes == encode_utf8(ttext).len() as usize
                &&& st.toon.tokens_approx == token_count(ttext)
                &&& st.savings.bytes_percent == spec_pct_x100(
                    st.json.bytes as int,
                    st.toon.bytes as int,
                )
                &&& st.savings.tokens_percent == spec_pct_x100(
                    st.json.tokens_approx as int,
                    st.toon.tokens_approx as int,
                )
                &&& (st.json.bytes == 0 ==> st.savings.bytes_percent == 0)
                &&& (st.json.tokens_approx == 0 ==> st.savings.tokens_percent == 0)
            })
            &&& (r is Ok <==> encode_ok(*json, delim, spaces))
            &&& (r matches Err(e) ==> e matches ToonCoreError::EncodeError(_))
        }),
{
    let json_str = match to_json_string(json) {
        Ok(t) => t,
        Err(e) => {
            return Err(ToonCoreError::SerializationError(json_error_message(&e)));
        },
    };
    let toon_str = match encode_json(json, options) {
        Ok(t) => t,
        Err(e) => {
            return Err(e);
        },
    };
    let json_bytes = json_str.as_str().len();
    let toon_bytes = toon_str.as_str().len();
    let json_tokens = estimate_tokens(json_str.as_str());
    let toon_tokens = estimate_tokens(toon_str.as_str());
    Ok(
        StatsResponse {
            json: FormatStats { bytes: json_bytes, tokens_approx: json_tokens },
            toon: FormatStats { bytes: toon_bytes, tokens_approx: toon_tokens },
            savings: SavingsStats {
                bytes_percent: savings_pct_x100(json_bytes, toon_bytes),
                tokens_percent: savings_pct_x100(json_tokens, toon_tokens),
            },
        },
    )
}

} // verus!
