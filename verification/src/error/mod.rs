//! Error handling for the WebSocket client.

pub mod display;
pub mod envelope;
pub mod redaction;

use vstd::prelude::*;

use crate::error::display::{api_context_text, fmt_api_context};
use crate::error::redaction::{no_secrets, redact_params, redacted};
use crate::json::{json_eq, JsonValue};
use crate::model::ws_types::{JsonRpcError, JsonRpcRequest};
use crate::text::{decimal_text, owned, push_i64};

verus! {

/// The JSON error type of `serde_json`.
#[verifier::external_type_specification]
#[verifier::external_body]
pub struct ExJsonError(serde_json::Error);

/// Wraps the `Display` of `serde_json::Error`: its message. Nothing is
/// stated of the text.
#[verifier::external_body]
fn json_error_message(e: &serde_json::Error) -> String {
    e.to_string()
}

/// A server response kept for debugging: its JSON document when it parsed
/// as JSON, else the text as received.
#[derive(Debug, PartialEq)]
pub enum RawResponse {
    /// The response text, which is not JSON.
    Text(String),
    /// The response document.
    Json(JsonValue),
}

/// WebSocket-specific errors.
#[derive(Debug)]
pub enum WebSocketError {
    /// Connection failed with error message
    ConnectionFailed(String),
    /// Authentication failed with error message
    AuthenticationFailed(String),
    /// Subscription failed with error message
    SubscriptionFailed(String),
    /// Invalid message format
    InvalidMessage(String),
    /// Connection was closed
    ConnectionClosed,
    /// Heartbeat timeout occurred
    HeartbeatTimeout,
    /// API error returned by Deribit, with the request and response that
    /// led to it. Sensitive keys inside `params` and `raw_response` hold
    /// `***` in place of their values.
    ApiError {
        /// Deribit API error code.
        code: i64,
        /// Human-readable error message from the server.
        message: String,
        /// JSON-RPC method of the originating request, when available.
        method: Option<String>,
        /// Request parameters after sensitive-key redaction, when available.
        params: Option<JsonValue>,
        /// Server response after sensitive-key redaction, when available.
        raw_response: Option<RawResponse>,
    },
    /// Operation timed out (e.g., `send_request` awaiting a matching response)
    Timeout(String),
    /// The background dispatcher task is not running.
    DispatcherDead,
    /// JSON serialization or deserialization failed.
    Serialization(serde_json::Error),
}

/// `b` is the response `a` with its document redacted.
pub open spec fn raw_redacted(a: RawResponse, b: RawResponse) -> bool {
    match a {
        RawResponse::Text(t) => b == RawResponse::Text(t),
        RawResponse::Json(v) => match b {
            RawResponse::Json(w) => redacted(v, w),
            _ => false,
        },
    }
}

/// A kept response holds no secret.
pub open spec fn raw_has_no_secrets(r: RawResponse) -> bool {
    match r {
        RawResponse::Json(v) => no_secrets(v),
        RawResponse::Text(_) => true,
    }
}

/// Redact a kept server response: a JSON document gets its sensitive values
/// replaced; text that is not JSON is returned unchanged, since it carries
/// no structured secrets.
pub fn redact_raw_response(raw: RawResponse) -> (r: RawResponse)
    ensures
        raw_redacted(raw, r),
{
    match raw {
        RawResponse::Text(t) => RawResponse::Text(t),
        RawResponse::Json(v) => RawResponse::Json(redact_params(v)),
    }
}

/// What the error message of an error reads; `rendered_params` is the JSON
/// text of an API error's parameters.
pub open spec fn error_text(e: WebSocketError, rendered_params: Option<Seq<char>>) -> Seq<char> {
    match e {
        WebSocketError::ConnectionFailed(m) => "Connection failed: "@ + m@,
        WebSocketError::AuthenticationFailed(m) => "Authentication failed: "@ + m@,
        WebSocketError::SubscriptionFailed(m) => "Subscription failed: "@ + m@,
        WebSocketError::InvalidMessage(m) => "Invalid message format: "@ + m@,
        WebSocketError::ConnectionClosed => "Connection closed unexpectedly"@,
        WebSocketError::HeartbeatTimeout => "Heartbeat timeout"@,
        WebSocketError::ApiError { code, message, method, .. } => "API error "@ + decimal_text(
            code as int,
        ) + ": "@ + message@ + api_context_text(
            match method {
                Some(m) => Some(m@),
                None => None,
            },
            rendered_params,
        ),
        WebSocketError::Timeout(m) => "Operation timed out: "@ + m@,
        WebSocketError::DispatcherDead => "Dispatcher task is not running"@,
        WebSocketError::Serialization(_) => "Serialization error: "@,
    }
}

fn text_after(prefix: &str, rest: &str) -> (r: String)
    ensures
        r@ == prefix@ + rest@,
{
    let mut r = String::new();
    r.append(prefix);
    r.append(rest);
    r
}

impl WebSocketError {
    /// Construct an enriched `ApiError` from the originating request and
    /// the server-side error payload.
    ///
    /// The request parameters and the kept response are redacted before
    /// they are stored: every value under `access_token`, `refresh_token`,
    /// `client_secret`, `signature` or `password` (any ASCII case, any
    /// depth) becomes `***`.
    pub fn api_error_from_parts(
        request: &JsonRpcRequest,
        error: JsonRpcError,
        raw_response: Option<RawResponse>,
    ) -> (r: Self)
        ensures
            r matches WebSocketError::ApiError { code, message, method, params, raw_response: kept } && {
                &&& code == error.code as i64
                &&& message == error.message
                &&& method matches Some(m) && m@ == request.method@
                &&& match request.params {
                    Some(p) => params matches Some(q) && redacted(p, q) && no_secrets(q),
                    None => params is None,
                }
                &&& match raw_response {
                    Some(raw) => kept matches Some(k) && raw_redacted(raw, k) && raw_has_no_secrets(k),
                    None => kept is None,
                }
            },
    {
        let params = match &request.params {
            Some(p) => {
                let copy = p.deep_clone();
                let q = redact_params(copy);
                proof {
                    crate::error::redaction::lemma_redacted_has_no_secrets(copy, q);
                    crate::error::redaction::lemma_redaction_of_equal_documents(*p, copy, q);
                }
                Some(q)
            },
            None => None,
        };
        let kept = match raw_response {
            Some(raw) => {
                let ghost before = raw;
                let k = redact_raw_response(raw);
                proof {
                    if let RawResponse::Json(v) = before {
                        crate::error::redaction::lemma_redacted_has_no_secrets(v, k->Json_0);
                    }
                }
                Some(k)
            },
            None => None,
        };
        WebSocketError::ApiError {
            code: error.code as i64,
            message: error.message,
            method: Some(request.method.clone()),
            params,
            raw_response: kept,
        }
    }

    /// The error message, as the error's `Display` renders it;
    /// `rendered_params` is the JSON text of an API error's parameters.
    /// The message of a serialization error is that error's own message
    /// after a fixed prefix.
    pub fn display_text(&self, rendered_params: &Option<String>) -> (r: String)
        ensures
            !(*self is Serialization) ==> r@ == error_text(
                *self,
                match rendered_params {
                    Some(p) => Some(p@),
                    None => None,
                },
            ),
            *self is Serialization ==> crate::text::is_prefix(error_text(*self, None), r@),
    {
        match self {
            WebSocketError::ConnectionFailed(m) => text_after("Connection failed: ", m.as_str()),
            WebSocketError::AuthenticationFailed(m) => text_after(
                "Authentication failed: ",
                m.as_str(),
            ),
            WebSocketError::SubscriptionFailed(m) => text_after(
                "Subscription failed: ",
                m.as_str(),
            ),
            WebSocketError::InvalidMessage(m) => text_after("Invalid message format: ", m.as_str()),
            WebSocketError::ConnectionClosed => owned("Connection closed unexpectedly"),
            WebSocketError::HeartbeatTimeout => owned("Heartbeat timeout"),
            WebSocketError::ApiError { code, message, method, .. } => {
                let mut r = String::new();
                r.append("API error ");
                push_i64(&mut r, *code);
                r.append(": ");
                r.append(message.as_str());
                let context = fmt_api_context(method, rendered_params);
                r.append(context.as_str());
                r
            },
            WebSocketError::Timeout(m) => text_after("Operation timed out: ", m.as_str()),
            WebSocketError::DispatcherDead => owned("Dispatcher task is not running"),
            WebSocketError::Serialization(e) => {
                let detail = json_error_message(e);
                let r = text_after("Serialization error: ", detail.as_str());
                assert(r@.subrange(0, error_text(*self, None).len() as int) =~= error_text(*self, None));
                r
            },
        }
    }
}

/// A JSON error converts into `WebSocketError::Serialization`.
impl From<serde_json::Error> for WebSocketError {
    fn from(e: serde_json::Error) -> (r: Self) {
        WebSocketError::Serialization(e)
    }
}

impl vstd::std_specs::convert::FromSpecImpl<serde_json::Error> for WebSocketError {
    open spec fn obeys_from_spec() -> bool {
        true
    }

    open spec fn from_spec(v: serde_json::Error) -> Self {
        WebSocketError::Serialization(v)
    }
}

} // verus!
