use deribit_websocket::error::display::fmt_api_context;
use deribit_websocket::error::envelope::build_raw_error_response;
use deribit_websocket::error::{RawResponse, WebSocketError};
use deribit_websocket::json::{JsonNumber, JsonValue};
use deribit_websocket::model::ws_types::{JsonRpcError, JsonRpcRequest};

fn s(t: &str) -> JsonValue {
    JsonValue::String(t.to_string())
}

fn n(v: u64) -> JsonValue {
    JsonValue::Number(JsonNumber::PosInt(v))
}

fn obj(entries: Vec<(&str, JsonValue)>) -> JsonValue {
    JsonValue::Object(entries.into_iter().map(|(k, v)| (k.to_string(), v)).collect())
}

/// The JSON text of a document, as serde_json writes it.
fn render(v: &JsonValue) -> String {
    serde_json::to_string(&to_serde(v)).expect("renders")
}

fn to_serde(v: &JsonValue) -> serde_json::Value {
    match v {
        JsonValue::Null => serde_json::Value::Null,
        JsonValue::Bool(b) => serde_json::Value::Bool(*b),
        JsonValue::Number(JsonNumber::PosInt(u)) => serde_json::Value::from(*u),
        JsonValue::Number(JsonNumber::NegInt(i)) => serde_json::Value::from(*i),
        JsonValue::Number(JsonNumber::FloatBits(b)) => serde_json::Value::from(f64::from_bits(*b)),
        JsonValue::String(t) => serde_json::Value::String(t.clone()),
        JsonValue::Array(items) => serde_json::Value::Array(items.iter().map(to_serde).collect()),
        JsonValue::Object(fields) => {
            let mut map = serde_json::Map::new();
            for (k, x) in fields {
                map.insert(k.clone(), to_serde(x));
            }
            serde_json::Value::Object(map)
        }
    }
}

fn from_serde(v: &serde_json::Value) -> JsonValue {
    match v {
        serde_json::Value::Null => JsonValue::Null,
        serde_json::Value::Bool(b) => JsonValue::Bool(*b),
        serde_json::Value::Number(x) => match (x.as_u64(), x.as_i64()) {
            (Some(u), _) => JsonValue::Number(JsonNumber::PosInt(u)),
            (None, Some(i)) => JsonValue::Number(JsonNumber::NegInt(i)),
            _ => JsonValue::Number(JsonNumber::FloatBits(x.as_f64().expect("float").to_bits())),
        },
        serde_json::Value::String(t) => JsonValue::String(t.clone()),
        serde_json::Value::Array(items) => JsonValue::Array(items.iter().map(from_serde).collect()),
        serde_json::Value::Object(map) => {
            JsonValue::Object(map.iter().map(|(k, x)| (k.clone(), from_serde(x))).collect())
        }
    }
}

/// A server response as kept: its document when the text is JSON, else the text.
fn raw_response_of(text: &str) -> RawResponse {
    match serde_json::from_str::<serde_json::Value>(text) {
        Ok(v) => RawResponse::Json(from_serde(&v)),
        Err(_) => RawResponse::Text(text.to_string()),
    }
}

fn make_request(method: &str, params: Option<JsonValue>) -> JsonRpcRequest {
    JsonRpcRequest {
        jsonrpc: "2.0".to_owned(),
        id: n(1),
        method: method.to_owned(),
        params,
    }
}

fn make_rpc_error(code: i32, message: &str) -> JsonRpcError {
    JsonRpcError {
        code,
        message: message.to_owned(),
        data: None,
    }
}

/// The error's message, its parameters rendered as JSON text.
fn to_string(err: &WebSocketError) -> String {
    let rendered = match err {
        WebSocketError::ApiError { params: Some(p), .. } => Some(render(p)),
        _ => None,
    };
    err.display_text(&rendered)
}

#[test]
fn no_context_returns_empty_string() {
    assert_eq!(fmt_api_context(&None, &None), "");
}

#[test]
fn method_only() {
    let method = Some("public/get_time".to_owned());
    assert_eq!(fmt_api_context(&method, &None), " (method=public/get_time)");
}

#[test]
fn params_only() {
    let params = Some(render(&obj(vec![("instrument_name", s("BTC-PERPETUAL"))])));
    let out = fmt_api_context(&None, &params);
    assert!(out.starts_with(" (params="));
    assert!(out.contains("BTC-PERPETUAL"));
}

#[test]
fn method_and_params() {
    let method = Some("private/buy".to_owned());
    let params = Some(render(&obj(vec![("amount", n(10))])));
    let out = fmt_api_context(&method, &params);
    assert!(out.starts_with(" (method=private/buy, params="));
    assert!(out.contains("\"amount\":10"));
}

#[test]
fn long_params_are_truncated() {
    let big = "x".repeat(10_000);
    let params = Some(render(&obj(vec![("blob", s(&big))])));
    let out = fmt_api_context(&None, &params);
    assert!(out.chars().count() < 1_000);
}

#[test]
fn envelope_round_trips_through_serde() {
    let raw = build_raw_error_response("2.0", &n(42), &make_rpc_error(13_004, "invalid_credentials"));
    let parsed: serde_json::Value = serde_json::from_str(&render(&raw)).expect("valid JSON");
    assert_eq!(parsed["jsonrpc"], "2.0");
    assert_eq!(parsed["id"], 42);
    assert_eq!(parsed["error"]["code"], 13_004);
    assert_eq!(parsed["error"]["message"], "invalid_credentials");
    assert!(parsed["error"]["data"].is_null());
}

#[test]
fn envelope_preserves_string_id() {
    let raw = build_raw_error_response("2.0", &s("client-correlation-id"), &make_rpc_error(1, "x"));
    let parsed: serde_json::Value = serde_json::from_str(&render(&raw)).expect("valid JSON");
    assert_eq!(parsed["id"], "client-correlation-id");
}

#[test]
fn envelope_preserves_error_data_payload() {
    let data = Some(obj(vec![("reason", s("rate_limited")), ("retry_after_ms", n(1500))]));
    let err = JsonRpcError {
        code: 10_028,
        message: "too_many".to_owned(),
        data,
    };
    let raw = build_raw_error_response("2.0", &n(7), &err);
    let parsed: serde_json::Value = serde_json::from_str(&render(&raw)).expect("valid JSON");
    assert_eq!(parsed["error"]["data"]["reason"], "rate_limited");
    assert_eq!(parsed["error"]["data"]["retry_after_ms"], 1_500);
}

#[test]
fn envelope_negative_code_is_kept() {
    let raw = build_raw_error_response("2.0", &n(3), &make_rpc_error(-32_000, "rejected"));
    assert_eq!(
        render(&raw),
        "{\"error\":{\"code\":-32000,\"data\":null,\"message\":\"rejected\"},\"id\":3,\"jsonrpc\":\"2.0\"}"
    );
}

#[test]
fn api_error_display_without_context_matches_legacy_prefix() {
    let err = WebSocketError::ApiError {
        code: 10_000,
        message: "not_allowed".to_owned(),
        method: None,
        params: None,
        raw_response: None,
    };
    assert_eq!(to_string(&err), "API error 10000: not_allowed");
}

#[test]
fn api_error_display_includes_method_when_present() {
    let request = make_request("public/get_time", None);
    let err = WebSocketError::api_error_from_parts(&request, make_rpc_error(11_050, "bad_arguments"), None);
    let text = to_string(&err);
    assert!(text.contains("API error 11050: bad_arguments"));
    assert!(text.contains("method=public/get_time"));
}

#[test]
fn api_error_display_includes_truncated_params() {
    let big_string = "a".repeat(5_000);
    let request = make_request("private/buy", Some(obj(vec![("blob", s(&big_string))])));
    let err = WebSocketError::api_error_from_parts(&request, make_rpc_error(10_001, "invalid_params"), None);
    let text = to_string(&err);
    assert!(text.contains("method=private/buy"));
    assert!(text.contains("params="));
    assert!(text.chars().count() < 1_024, "Display should be truncated, got {} chars", text.chars().count());
}

#[test]
fn api_error_from_parts_redacts_access_token_in_display() {
    let request = make_request("public/auth", Some(obj(vec![("access_token", s("leaky"))])));
    let err = WebSocketError::api_error_from_parts(&request, make_rpc_error(13_004, "invalid_credentials"), None);
    let text = to_string(&err);
    assert!(!text.contains("leaky"), "access_token leaked: {text}");
    assert!(text.contains("***"));
}

#[test]
fn api_error_from_parts_redacts_refresh_token_in_display() {
    let request = make_request("public/auth", Some(obj(vec![("refresh_token", s("refresh-leak"))])));
    let err = WebSocketError::api_error_from_parts(&request, make_rpc_error(13_004, "err"), None);
    assert!(!to_string(&err).contains("refresh-leak"));
}

#[test]
fn api_error_from_parts_redacts_client_secret_in_display() {
    let request = make_request("public/auth", Some(obj(vec![("client_secret", s("client-secret-leak"))])));
    let err = WebSocketError::api_error_from_parts(&request, make_rpc_error(13_004, "err"), None);
    assert!(!to_string(&err).contains("client-secret-leak"));
}

#[test]
fn api_error_from_parts_redacts_signature_in_display() {
    let request = make_request("public/auth", Some(obj(vec![("signature", s("sig-leak"))])));
    let err = WebSocketError::api_error_from_parts(&request, make_rpc_error(13_004, "err"), None);
    assert!(!to_string(&err).contains("sig-leak"));
}

#[test]
fn api_error_from_parts_redacts_password_in_display() {
    let request = make_request("public/auth", Some(obj(vec![("password", s("pw-leak"))])));
    let err = WebSocketError::api_error_from_parts(&request, make_rpc_error(13_004, "err"), None);
    assert!(!to_string(&err).contains("pw-leak"));
}

#[test]
fn api_error_from_parts_redacts_all_keys_in_debug() {
    let request = make_request(
        "public/auth",
        Some(obj(vec![
            ("access_token", s("a-leak")),
            ("refresh_token", s("r-leak")),
            ("client_secret", s("c-leak")),
            ("signature", s("s-leak")),
            ("password", s("p-leak")),
        ])),
    );
    let err = WebSocketError::api_error_from_parts(&request, make_rpc_error(13_004, "err"), None);
    let debug = format!("{err:?}");
    for leak in ["a-leak", "r-leak", "c-leak", "s-leak", "p-leak"] {
        assert!(!debug.contains(leak), "{leak} leaked in Debug output: {debug}");
    }
}

#[test]
fn api_error_from_parts_redacts_nested_sensitive_keys() {
    let request = make_request(
        "private/xyz",
        Some(obj(vec![("outer", obj(vec![("inner", obj(vec![("password", s("deep-leak"))]))]))])),
    );
    let err = WebSocketError::api_error_from_parts(&request, make_rpc_error(10_001, "err"), None);
    let debug = format!("{err:?}");
    assert!(!debug.contains("deep-leak"));
}

#[test]
fn api_error_from_parts_redacts_case_insensitive_in_debug() {
    let request = make_request(
        "private/xyz",
        Some(obj(vec![
            ("Password", s("UPPER-leak")),
            ("Access_Token", s("upper-snake-leak")),
            ("REFRESH_TOKEN", s("shouty-leak")),
        ])),
    );
    let err = WebSocketError::api_error_from_parts(&request, make_rpc_error(10_001, "err"), None);
    let debug = format!("{err:?}");
    assert!(!debug.contains("UPPER-leak"));
    assert!(!debug.contains("upper-snake-leak"));
    assert!(!debug.contains("shouty-leak"));
}

#[test]
fn api_error_from_parts_sets_method_from_request() {
    let request = make_request("public/test", None);
    let err = WebSocketError::api_error_from_parts(&request, make_rpc_error(1, "x"), None);
    match err {
        WebSocketError::ApiError { method, .. } => assert_eq!(method.as_deref(), Some("public/test")),
        other => panic!("expected ApiError, got {other:?}"),
    }
}

#[test]
fn api_error_from_parts_handles_none_params() {
    let request = make_request("public/test", None);
    let err = WebSocketError::api_error_from_parts(&request, make_rpc_error(1, "x"), None);
    match err {
        WebSocketError::ApiError { params, .. } => assert!(params.is_none()),
        other => panic!("expected ApiError, got {other:?}"),
    }
}

#[test]
fn api_error_from_parts_preserves_error_code_and_message() {
    let request = make_request("public/test", None);
    let err = WebSocketError::api_error_from_parts(&request, make_rpc_error(13_004, "invalid_credentials"), None);
    match err {
        WebSocketError::ApiError { code, message, .. } => {
            assert_eq!(code, 13_004);
            assert_eq!(message, "invalid_credentials");
        }
        other => panic!("expected ApiError, got {other:?}"),
    }
}

#[test]
fn api_error_from_parts_redacts_raw_response() {
    let request = make_request("public/auth", None);
    let raw =
        r#"{"id":1,"error":{"code":13004,"message":"x","data":{"access_token":"raw-leak"}}}"#;
    let err = WebSocketError::api_error_from_parts(&request, make_rpc_error(13_004, "x"), Some(raw_response_of(raw)));
    match err {
        WebSocketError::ApiError { raw_response: Some(RawResponse::Json(stored)), .. } => {
            let text = render(&stored);
            assert!(!text.contains("raw-leak"));
            assert!(text.contains("***"));
            // The kept text is the response re-serialised with the secret replaced.
            let mut expected: serde_json::Value = serde_json::from_str(raw).expect("json");
            expected["error"]["data"]["access_token"] = serde_json::Value::String("***".to_string());
            assert_eq!(text, serde_json::to_string(&expected).expect("renders"));
        }
        other => panic!("expected ApiError with raw_response, got {other:?}"),
    }
}

#[test]
fn api_error_matches_on_code_still_works() {
    let request = make_request("public/test", None);
    let err = WebSocketError::api_error_from_parts(&request, make_rpc_error(42, "oops"), None);
    match err {
        WebSocketError::ApiError { code, message, .. } => {
            assert_eq!(code, 42);
            assert_eq!(message, "oops");
        }
        _ => panic!("expected ApiError"),
    }
}

#[test]
fn api_error_from_parts_keeps_text_raw_response() {
    let request = make_request("public/auth", None);
    let err = WebSocketError::api_error_from_parts(
        &request,
        make_rpc_error(1, "x"),
        Some(raw_response_of("password=hunter2")),
    );
    match err {
        WebSocketError::ApiError { raw_response: Some(RawResponse::Text(t)), .. } => assert_eq!(t, "password=hunter2"),
        other => panic!("expected text raw_response, got {other:?}"),
    }
}

#[test]
fn display_texts_of_each_variant() {
    assert_eq!(WebSocketError::ConnectionFailed("x".into()).display_text(&None), "Connection failed: x");
    assert_eq!(WebSocketError::AuthenticationFailed("y".into()).display_text(&None), "Authentication failed: y");
    assert_eq!(WebSocketError::SubscriptionFailed("z".into()).display_text(&None), "Subscription failed: z");
    assert_eq!(WebSocketError::InvalidMessage("m".into()).display_text(&None), "Invalid message format: m");
    assert_eq!(WebSocketError::ConnectionClosed.display_text(&None), "Connection closed unexpectedly");
    assert_eq!(WebSocketError::HeartbeatTimeout.display_text(&None), "Heartbeat timeout");
    assert_eq!(WebSocketError::Timeout("5s".into()).display_text(&None), "Operation timed out: 5s");
    assert_eq!(WebSocketError::DispatcherDead.display_text(&None), "Dispatcher task is not running");
    let parse_error = serde_json::from_str::<serde_json::Value>("{").expect_err("invalid JSON");
    let expected = format!("Serialization error: {parse_error}");
    assert_eq!(WebSocketError::Serialization(parse_error).display_text(&None), expected);
}

#[test]
fn api_error_display_with_negative_code_and_params() {
    let err = WebSocketError::ApiError {
        code: -32_602,
        message: "Invalid params".to_owned(),
        method: Some("private/buy".to_owned()),
        params: Some(obj(vec![("amount", n(10))])),
        raw_response: None,
    };
    assert_eq!(
        to_string(&err),
        "API error -32602: Invalid params (method=private/buy, params={\"amount\":10})"
    );
}

#[test]
fn json_errors_convert_into_serialization_errors() {
    let parse_error = serde_json::from_str::<serde_json::Value>("[1,").expect_err("truncated JSON");
    let e: WebSocketError = parse_error.into();
    assert!(matches!(e, WebSocketError::Serialization(_)));
}

#[test]
fn requests_differing_only_in_secrets_give_the_same_error() {
    let r1 = make_request("public/auth", Some(obj(vec![("access_token", s("a-leak")), ("scope", s("x"))])));
    let r2 = make_request("public/auth", Some(obj(vec![("access_token", s("other")), ("scope", s("x"))])));
    let e1 = WebSocketError::api_error_from_parts(&r1, make_rpc_error(13_004, "err"), None);
    let e2 = WebSocketError::api_error_from_parts(&r2, make_rpc_error(13_004, "err"), None);
    assert_eq!(to_string(&e1), to_string(&e2));
    assert_eq!(format!("{e1:?}"), format!("{e2:?}"));
    assert!(!format!("{e1:?}").contains("a-leak"));
}
