use std::borrow::Cow;

use deribit_websocket::error::redaction::{
    is_sensitive_key, redact_params, truncate_for_display, MAX_PAYLOAD_DISPLAY_LEN,
    REDACTION_MARKER,
};
use deribit_websocket::error::{redact_raw_response, RawResponse};
use deribit_websocket::json::{JsonNumber, JsonValue};

fn s(t: &str) -> JsonValue {
    JsonValue::String(t.to_string())
}

fn n(v: u64) -> JsonValue {
    JsonValue::Number(JsonNumber::PosInt(v))
}

fn obj(entries: Vec<(&str, JsonValue)>) -> JsonValue {
    JsonValue::Object(entries.into_iter().map(|(k, v)| (k.to_string(), v)).collect())
}

fn copy(v: &JsonValue) -> JsonValue {
    v.deep_clone()
}

fn from_serde(v: &serde_json::Value) -> JsonValue {
    match v {
        serde_json::Value::Null => JsonValue::Null,
        serde_json::Value::Bool(b) => JsonValue::Bool(*b),
        serde_json::Value::Number(x) => match (x.as_u64(), x.as_i64()) {
            (Some(u), _) => JsonValue::Number(JsonNumber::PosInt(u)),
            (None, Some(i)) => JsonValue::Number(JsonNumber::NegInt(i)),
            _ => JsonValue::Number(JsonNumber::FloatBits(x.as_f64().expect("float").to_bits())),
        },
        serde_json::Value::String(t) => JsonValue::String(t.clone()),
        serde_json::Value::Array(items) => JsonValue::Array(items.iter().map(from_serde).collect()),
        serde_json::Value::Object(map) => {
            JsonValue::Object(map.iter().map(|(k, x)| (k.clone(), from_serde(x))).collect())
        }
    }
}

fn to_serde(v: &JsonValue) -> serde_json::Value {
    match v {
        JsonValue::Null => serde_json::Value::Null,
        JsonValue::Bool(b) => serde_json::Value::Bool(*b),
        JsonValue::Number(JsonNumber::PosInt(u)) => serde_json::Value::from(*u),
        JsonValue::Number(JsonNumber::NegInt(i)) => serde_json::Value::from(*i),
        JsonValue::Number(JsonNumber::FloatBits(b)) => serde_json::Value::from(f64::from_bits(*b)),
        JsonValue::String(t) => serde_json::Value::String(t.clone()),
        JsonValue::Array(items) => serde_json::Value::Array(items.iter().map(to_serde).collect()),
        JsonValue::Object(fields) => {
            let mut map = serde_json::Map::new();
            for (k, x) in fields {
                map.insert(k.clone(), to_serde(x));
            }
            serde_json::Value::Object(map)
        }
    }
}

/// A response text redacted as the client keeps it: parsed when it is JSON,
/// redacted, and written back as JSON text; other text unchanged.
fn redact_text(raw: &str) -> String {
    let kept = match serde_json::from_str::<serde_json::Value>(raw) {
        Ok(v) => RawResponse::Json(from_serde(&v)),
        Err(_) => RawResponse::Text(raw.to_string()),
    };
    match redact_raw_response(kept) {
        RawResponse::Json(doc) => serde_json::to_string(&to_serde(&doc)).expect("renders"),
        RawResponse::Text(t) => t,
    }
}

#[test]
fn redact_params_scalar_passthrough() {
    assert_eq!(redact_params(JsonValue::Null), JsonValue::Null);
    assert_eq!(redact_params(n(42)), n(42));
    assert_eq!(redact_params(JsonValue::Bool(true)), JsonValue::Bool(true));
    assert_eq!(redact_params(s("plain")), s("plain"));
}

#[test]
fn redact_params_redacts_top_level_access_token() {
    let input = obj(vec![("access_token", s("secret-token")), ("other", n(1))]);
    let out = redact_params(input);
    assert_eq!(out, obj(vec![("access_token", s("***")), ("other", n(1))]));
}

#[test]
fn redact_params_redacts_refresh_token() {
    let input = obj(vec![("refresh_token", s("abc"))]);
    assert_eq!(redact_params(input), obj(vec![("refresh_token", s("***"))]));
}

#[test]
fn redact_params_redacts_client_secret() {
    let input = obj(vec![("client_secret", s("s3cret"))]);
    assert_eq!(redact_params(input), obj(vec![("client_secret", s("***"))]));
}

#[test]
fn redact_params_redacts_signature() {
    let input = obj(vec![("signature", s("deadbeef"))]);
    assert_eq!(redact_params(input), obj(vec![("signature", s("***"))]));
}

#[test]
fn redact_params_redacts_password() {
    let input = obj(vec![("password", s("hunter2"))]);
    assert_eq!(redact_params(input), obj(vec![("password", s("***"))]));
}

#[test]
fn redact_params_redacts_case_insensitive_variants() {
    let input = obj(vec![
        ("Password", s("a")),
        ("PASSWORD", s("b")),
        ("Access_Token", s("c")),
        ("REFRESH_TOKEN", s("d")),
        ("Client_Secret", s("e")),
        ("Signature", s("f")),
    ]);
    let out = redact_params(input);
    assert_eq!(
        out,
        obj(vec![
            ("Password", s("***")),
            ("PASSWORD", s("***")),
            ("Access_Token", s("***")),
            ("REFRESH_TOKEN", s("***")),
            ("Client_Secret", s("***")),
            ("Signature", s("***")),
        ])
    );
}

#[test]
fn redact_params_does_not_redact_structurally_different_keys() {
    let input = obj(vec![("AccessToken", s("keep-me")), ("clientsecret", s("keep-me-too"))]);
    let out = redact_params(copy(&input));
    assert_eq!(out, input);
}

#[test]
fn redact_params_redacts_nested_object() {
    let input = obj(vec![
        (
            "auth",
            obj(vec![
                ("client_id", s("public-id")),
                ("client_secret", s("shh")),
                ("nested", obj(vec![("password", s("deeper"))])),
            ]),
        ),
        ("data", n(1)),
    ]);
    let out = redact_params(input);
    assert_eq!(
        out,
        obj(vec![
            (
                "auth",
                obj(vec![
                    ("client_id", s("public-id")),
                    ("client_secret", s("***")),
                    ("nested", obj(vec![("password", s("***"))])),
                ]),
            ),
            ("data", n(1)),
        ])
    );
}

#[test]
fn redact_params_redacts_array_of_objects() {
    let input = JsonValue::Array(vec![
        obj(vec![("access_token", s("t1")), ("keep", n(1))]),
        obj(vec![("access_token", s("t2")), ("keep", n(2))]),
    ]);
    let out = redact_params(input);
    assert_eq!(
        out,
        JsonValue::Array(vec![
            obj(vec![("access_token", s("***")), ("keep", n(1))]),
            obj(vec![("access_token", s("***")), ("keep", n(2))]),
        ])
    );
}

#[test]
fn redact_params_leaves_non_sensitive_keys_alone() {
    let input = obj(vec![
        ("instrument_name", s("BTC-PERPETUAL")),
        ("amount", n(10)),
        ("type", s("limit")),
    ]);
    let out = redact_params(copy(&input));
    assert_eq!(out, input);
}

#[test]
fn redact_raw_response_valid_json_redacts() {
    let raw = r#"{"access_token":"leak","id":1}"#;
    let redacted = redact_text(raw);
    assert!(!redacted.contains("leak"));
    assert!(redacted.contains("***"));
    assert!(redacted.contains("\"id\":1"));
}

#[test]
fn redact_raw_response_keeps_the_document_shape() {
    // The document of {"access_token":"leak","id":1}.
    let raw = RawResponse::Json(obj(vec![("access_token", s("leak")), ("id", n(1))]));
    assert_eq!(
        redact_raw_response(raw),
        RawResponse::Json(obj(vec![("access_token", s("***")), ("id", n(1))]))
    );
}

#[test]
fn redact_raw_response_invalid_json_returns_input_unchanged() {
    let raw = "not json at all";
    assert_eq!(redact_text(raw), "not json at all");
}

#[test]
fn redact_raw_response_invalid_json_does_not_leak_sensitive_like_substrings() {
    let raw = "password=hunter2 (raw log line)";
    assert_eq!(redact_text(raw), raw);
}

#[test]
fn truncate_for_display_short_borrows() {
    let s = "abc";
    let out = truncate_for_display(s);
    assert!(matches!(out, Cow::Borrowed(_)));
    assert_eq!(out, "abc");
}

#[test]
fn truncate_for_display_long_truncates_at_char_boundary() {
    let s: String = "x".repeat(MAX_PAYLOAD_DISPLAY_LEN + 100);
    let out = truncate_for_display(&s);
    assert!(matches!(out, Cow::Owned(_)));
    assert_eq!(out.chars().count(), MAX_PAYLOAD_DISPLAY_LEN + 1);
    assert!(out.ends_with('…'));
}

#[test]
fn truncate_for_display_multibyte_does_not_panic() {
    let s: String = "€".repeat(MAX_PAYLOAD_DISPLAY_LEN + 10);
    let out = truncate_for_display(&s);
    assert_eq!(out.chars().count(), MAX_PAYLOAD_DISPLAY_LEN + 1);
}

#[test]
fn truncate_for_display_exact_cap_is_borrowed() {
    let s: String = "x".repeat(MAX_PAYLOAD_DISPLAY_LEN);
    let out = truncate_for_display(&s);
    assert!(matches!(out, Cow::Borrowed(_)));
    assert_eq!(out.chars().count(), MAX_PAYLOAD_DISPLAY_LEN);
}

#[test]
fn truncate_keeps_the_first_characters() {
    let s: String = "ab".repeat(MAX_PAYLOAD_DISPLAY_LEN);
    let out = truncate_for_display(&s);
    let expected: String = s.chars().take(MAX_PAYLOAD_DISPLAY_LEN).collect::<String>() + "…";
    assert_eq!(out, expected.as_str());
}

#[test]
fn sensitive_keys_are_recognised_without_case() {
    for key in ["access_token", "refresh_token", "client_secret", "signature", "password"] {
        assert!(is_sensitive_key(key));
        assert!(is_sensitive_key(&key.to_uppercase()));
    }
    assert!(!is_sensitive_key("client_id"));
    assert!(!is_sensitive_key("AccessToken"));
    assert!(!is_sensitive_key("password2"));
    assert!(!is_sensitive_key(""));
}

#[test]
fn redaction_is_idempotent_on_a_concrete_document() {
    let input = obj(vec![
        ("password", s("p")),
        ("list", JsonValue::Array(vec![obj(vec![("signature", s("x"))]), n(3)])),
    ]);
    let once = redact_params(input);
    let twice = redact_params(copy(&once));
    assert_eq!(once, twice);
}

#[test]
fn redaction_marker_replaces_non_string_secrets_too() {
    let input = obj(vec![
        ("password", n(1234)),
        ("access_token", obj(vec![("part", s("x"))])),
    ]);
    let out = redact_params(input);
    assert_eq!(
        out,
        obj(vec![("password", s(REDACTION_MARKER)), ("access_token", s(REDACTION_MARKER))])
    );
}
