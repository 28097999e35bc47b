//! Tests of the stated properties: delimiter mapping totality, option
//! defaults and clamping, validation never failing, exact statistics,
//! error classification, and message rendering.

use toon_mcp::{
    build_decode_options, build_encode_options, compute_stats, decode_toon, encode_json,
    estimate_tokens, format_json_output, parse_json_input, validate_toon, ApiError, AppState,
    Args, DecodeRequest, DelimiterChoice, EncodeOptionsInput, ServerMode, ToonCoreError,
    ToonMcpError, ValidationError,
};
use toon_mcp::codec::CodecError;
use toon_mcp::ops::savings_pct_x100;

fn obj(entries: Vec<(&str, serde_json::Value)>) -> serde_json::Value {
    let mut m = serde_json::Map::new();
    for (k, v) in entries {
        m.insert(k.to_string(), v);
    }
    serde_json::Value::Object(m)
}

fn s(x: &str) -> serde_json::Value {
    serde_json::Value::String(x.to_string())
}

fn n(x: i64) -> serde_json::Value {
    serde_json::Value::from(x)
}

fn encode_options_with_delimiter(d: Option<&str>) -> EncodeOptionsInput {
    EncodeOptionsInput { delimiter: d.map(|x| x.to_string()), ..Default::default() }
}

#[test]
fn delimiter_mapping_totality() {
    let cases: Vec<(Option<&str>, DelimiterChoice)> = vec![
        (Some("tab"), DelimiterChoice::Tab),
        (Some("pipe"), DelimiterChoice::Pipe),
        (Some("comma"), DelimiterChoice::Comma),
        (Some(""), DelimiterChoice::Comma),
        (Some("bogus"), DelimiterChoice::Comma),
        (None, DelimiterChoice::Comma),
    ];
    for (input, expected) in cases {
        let settings = build_encode_options(&encode_options_with_delimiter(input));
        assert_eq!(settings.delimiter, expected);
    }
}

#[test]
fn delimiter_reaches_the_codec() {
    let json = obj(vec![("tags", serde_json::Value::Array(vec![s("a"), s("b"), s("c")]))]);
    let options = encode_options_with_delimiter(Some("pipe"));
    let toon = encode_json(&json, &options).unwrap();
    assert!(toon.contains('|'));

    let comma = encode_json(&json, &EncodeOptionsInput::default()).unwrap();
    assert!(!comma.contains('|'));
}

#[test]
fn indent_is_clamped() {
    let settings =
        build_encode_options(&EncodeOptionsInput { indent: Some(12), ..Default::default() });
    assert_eq!(settings.spaces, 8);

    let settings =
        build_encode_options(&EncodeOptionsInput { indent: Some(0), ..Default::default() });
    assert_eq!(settings.spaces, 0);

    let settings = build_encode_options(&EncodeOptionsInput::default());
    assert_eq!(settings.spaces, 2);
}

#[test]
fn fold_and_flatten_resolve() {
    let settings = build_encode_options(&EncodeOptionsInput {
        fold_keys: Some(true),
        flatten_depth: Some(3),
        ..Default::default()
    });
    assert!(settings.fold_keys);
    assert_eq!(settings.flatten_depth, Some(3));

    let settings = build_encode_options(&EncodeOptionsInput::default());
    assert!(!settings.fold_keys);
    assert_eq!(settings.flatten_depth, None);
}

#[test]
fn decode_option_defaults() {
    let request = DecodeRequest {
        toon: String::new(),
        strict: None,
        coerce_types: None,
        expand_paths: None,
        output_format: None,
    };
    let settings = build_decode_options(&request);
    assert!(settings.strict);
    assert!(settings.coerce_types);
    assert!(!settings.expand_paths);

    let request = DecodeRequest {
        toon: String::new(),
        strict: Some(false),
        coerce_types: Some(false),
        expand_paths: Some(true),
        output_format: None,
    };
    let settings = build_decode_options(&request);
    assert!(!settings.strict);
    assert!(!settings.coerce_types);
    assert!(settings.expand_paths);
}

#[test]
fn validate_never_fails_the_call() {
    // This codec revision reads a lone malformed line as a root scalar
    // string, so the call must report a normal result either way: error
    // details present exactly when the text is invalid.
    let result = validate_toon("not valid toon {{{", Some(true));
    assert_eq!(result.valid, result.error.is_none());

    let result = validate_toon("items[3]: a,b", Some(true));
    assert!(!result.valid);
    let error = result.error.unwrap();
    assert!(!error.message.is_empty());
}

#[test]
fn encode_then_decode_scenario() {
    let json = obj(vec![("name", s("Alice")), ("age", n(30))]);
    let toon = encode_json(&json, &EncodeOptionsInput::default()).unwrap();
    let request = DecodeRequest {
        toon,
        strict: None,
        coerce_types: None,
        expand_paths: None,
        output_format: None,
    };
    let decoded = decode_toon(&request.toon, &request).unwrap();
    assert_eq!(decoded, json);
    assert_eq!(decoded["age"], serde_json::Value::from(30));
}

#[test]
fn decode_name_alice_strict() {
    let request = DecodeRequest {
        toon: "name: Alice".to_string(),
        strict: Some(true),
        coerce_types: None,
        expand_paths: None,
        output_format: None,
    };
    let decoded = decode_toon(&request.toon, &request).unwrap();
    assert_eq!(decoded, obj(vec![("name", s("Alice"))]));
}

#[test]
fn stats_exact_small_object() {
    let json = obj(vec![("a", n(1))]);
    let stats = compute_stats(&json, &EncodeOptionsInput::default()).unwrap();

    // Compact JSON is {"a":1} — 7 bytes, 7 tokens; TOON is "a: 1" —
    // 4 bytes, 3 tokens.
    assert_eq!(stats.json.bytes, 7);
    assert_eq!(stats.json.tokens_approx, 7);
    assert_eq!(stats.toon.bytes, 4);
    assert_eq!(stats.toon.tokens_approx, 3);
    assert_eq!(stats.savings.bytes_percent, 4286);
    assert_eq!(stats.savings.tokens_percent, 5714);
}

#[test]
fn savings_percentage_examples() {
    assert_eq!(savings_pct_x100(200, 100), 5000);
    assert_eq!(savings_pct_x100(3, 2), 3333);
    assert_eq!(savings_pct_x100(7, 3), 5714);
    assert_eq!(savings_pct_x100(100, 300), -20000);
    assert_eq!(savings_pct_x100(5, 5), 0);
    assert_eq!(savings_pct_x100(0, 5), 0);
    assert_eq!(savings_pct_x100(0, 0), 0);
}

#[test]
fn estimate_tokens_unicode_words() {
    assert_eq!(estimate_tokens("h\u{e9}llo w\u{f6}rld"), 2);
    assert_eq!(estimate_tokens("foo_bar baz"), 2);
    assert_eq!(estimate_tokens("  \t\n  "), 0);
}

#[test]
fn format_output_compact_and_pretty() {
    let json = obj(vec![("a", n(1))]);
    assert_eq!(format_json_output(&json, None).unwrap(), "{\"a\":1}");
    assert_eq!(format_json_output(&json, Some("bogus")).unwrap(), "{\"a\":1}");
    assert_eq!(format_json_output(&json, Some("json_pretty")).unwrap(), "{\n  \"a\": 1\n}");
}

#[test]
fn parse_json_input_gives_invalid_json() {
    let result = parse_json_input(&s("not valid json {"));
    assert!(matches!(result, Err(ToonCoreError::InvalidJson(_))));
}

#[test]
fn decode_failure_is_a_parse_error() {
    let request = DecodeRequest {
        toon: "items[3]: a,b".to_string(),
        strict: Some(true),
        coerce_types: None,
        expand_paths: None,
        output_format: None,
    };
    let result = decode_toon(&request.toon, &request);
    match result {
        Err(ToonCoreError::ParseError { line, column, .. }) => {
            assert!(line >= 1);
            assert!(column >= 1);
        }
        other => panic!("expected a parse error, got {:?}", other),
    }
}

#[test]
fn encode_failure_on_excessive_nesting() {
    let mut value = n(1);
    for _ in 0..300 {
        value = obj(vec![("k", value)]);
    }
    let result = encode_json(&value, &EncodeOptionsInput::default());
    assert!(matches!(result, Err(ToonCoreError::EncodeError(_))));
}

#[test]
fn classification_is_total() {
    let parse = CodecError::Parse {
        line: 3,
        column: 7,
        message: "bad token".to_string(),
        suggestion: Some("quote it".to_string()),
    };
    let classified = ToonCoreError::of_codec(parse);
    assert_eq!(
        classified,
        ToonCoreError::ParseError {
            message: "bad token".to_string(),
            line: 3,
            column: 7,
            suggestion: Some("quote it".to_string()),
        }
    );

    let other = CodecError::InvalidInput("x".to_string());
    assert_eq!(ToonCoreError::of_codec(other), ToonCoreError::DecodeError("Invalid input: x".to_string()));

    let mismatch = CodecError::TypeMismatch { expected: "row".to_string(), found: "list".to_string() };
    assert_eq!(
        ToonCoreError::of_codec(mismatch),
        ToonCoreError::DecodeError("Type mismatch: expected row, found list".to_string())
    );
}

#[test]
fn core_error_messages_render_exactly() {
    let parse = ToonCoreError::ParseError {
        message: "bad token".to_string(),
        line: 3,
        column: 7,
        suggestion: None,
    };
    assert_eq!(parse.message(), "Parse error at line 3, column 7: bad token");

    let mismatch = ToonCoreError::LengthMismatch { expected: 3, found: 2 };
    assert_eq!(mismatch.message(), "Array length mismatch: expected 3, found 2");

    assert_eq!(ToonCoreError::EncodeError("x".to_string()).message(), "Encoding failed: x");
    assert_eq!(ToonCoreError::DecodeError("x".to_string()).message(), "Decoding failed: x");
    assert_eq!(ToonCoreError::InvalidJson("x".to_string()).message(), "Invalid JSON: x");
    assert_eq!(
        ToonCoreError::SerializationError("x".to_string()).message(),
        "Serialization failed: x"
    );
}

#[test]
fn validation_detail_keeps_position_and_counts() {
    let parse = ToonCoreError::ParseError {
        message: "bad token".to_string(),
        line: 3,
        column: 7,
        suggestion: Some("quote it".to_string()),
    };
    let detail = ValidationError::from_core_error(parse);
    assert_eq!(detail.message, "bad token");
    assert_eq!(detail.line, Some(3));
    assert_eq!(detail.column, Some(7));
    assert_eq!(detail.suggestion, Some("quote it".to_string()));

    let mismatch = ToonCoreError::LengthMismatch { expected: 3, found: 2 };
    let detail = ValidationError::from_core_error(mismatch);
    assert_eq!(detail.message, "Array length mismatch: expected 3, found 2");
    assert_eq!(detail.line, None);
    assert_eq!(detail.column, None);
    assert_eq!(detail.suggestion, Some("Expected 3 items but found 2".to_string()));
}

#[test]
fn api_error_keeps_parse_details() {
    let parse = ToonCoreError::ParseError {
        message: "bad token".to_string(),
        line: 3,
        column: 7,
        suggestion: None,
    };
    let api = ApiError::from_core_error(parse);
    assert_eq!(api.error, "bad token");
    let details = api.details.unwrap();
    assert_eq!(details.line, Some(3));
    assert_eq!(details.column, Some(7));
    assert_eq!(details.suggestion, None);

    let api = ApiError::from_core_error(ToonCoreError::EncodeError("x".to_string()));
    assert_eq!(api.error, "Encoding failed: x");
    assert!(api.details.is_none());
}

#[test]
fn mcp_error_messages_render_exactly() {
    assert_eq!(ToonMcpError::Encode("x".to_string()).message(), "Encoding error: x");
    assert_eq!(ToonMcpError::Decode("x".to_string()).message(), "Decoding error: x");
    assert_eq!(ToonMcpError::InvalidInput("x".to_string()).message(), "Invalid input: x");
}

#[test]
fn socket_addr_joins_host_and_port() {
    let args = Args {
        mode: ServerMode::default(),
        host: "0.0.0.0".to_string(),
        port: 8080,
        verbose: false,
    };
    assert_eq!(args.socket_addr(), "0.0.0.0:8080");
    assert!(matches!(args.mode, ServerMode::Mcp));
}

#[test]
fn app_state_reports_version() {
    let state = AppState::default();
    assert_eq!(state.version, "0.1.0");
}

#[test]
fn normalizer_leaves_nested_strings_alone() {
    let value = obj(vec![("text", s(r#"{"k": 1}"#))]);
    let result = parse_json_input(&value).unwrap();
    assert_eq!(result, value);
}
