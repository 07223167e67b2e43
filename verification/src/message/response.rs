//! Reading JSON-RPC responses.

use vstd::prelude::*;
use crate::json::JsonValue;
use crate::model::ws_types::{JsonRpcError, JsonRpcResponse, JsonRpcResult};

verus! {

/// Response handler for WebSocket messages.
#[derive(Debug, Clone, Copy)]
pub struct ResponseHandler;

impl ResponseHandler {
    /// Create a new response handler.
    pub fn new() -> (r: Self) {
        ResponseHandler
    }

    /// Whether the response carries a result rather than an error.
    pub fn is_success(&self, response: &JsonRpcResponse) -> (r: bool)
        ensures
            r == (response.result is Success),
    {
        match &response.result {
            JsonRpcResult::Success { .. } => true,
            JsonRpcResult::Error { .. } => false,
        }
    }

    /// The result of a successful response.
    pub fn extract_result<'a>(&self, response: &'a JsonRpcResponse) -> (r: Option<&'a JsonValue>)
        ensures
            match response.result {
                JsonRpcResult::Success { result } => r matches Some(v) && *v == result,
                JsonRpcResult::Error { .. } => r is None,
            },
    {
        match &response.result {
            JsonRpcResult::Success { result } => Some(result),
            JsonRpcResult::Error { .. } => None,
        }
    }

    /// The error of a failed response.
    pub fn extract_error<'a>(&self, response: &'a JsonRpcResponse) -> (r: Option<&'a JsonRpcError>)
        ensures
            match response.result {
                JsonRpcResult::Success { .. } => r is None,
                JsonRpcResult::Error { error } => r matches Some(e) && *e == error,
            },
    {
        match &response.result {
            JsonRpcResult::Success { .. } => None,
            JsonRpcResult::Error { error } => Some(error),
        }
    }
}

impl Default for ResponseHandler {
    fn default() -> (r: Self) {
        ResponseHandler::new()
    }
}

} // verus!
