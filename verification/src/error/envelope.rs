//! Reconstruction of the JSON-RPC error envelope of a failed request.

use vstd::prelude::*;

use crate::json::{json_eq, JsonNumber, JsonValue};
use crate::model::ws_types::JsonRpcError;
use crate::text::owned;

verus! {

/// The document a JSON-RPC error object is written as:
/// `{"code": .., "message": .., "data": ..}`, `data` being `null` when absent.
pub open spec fn error_object(entries: Seq<(String, JsonValue)>, error: JsonRpcError) -> bool {
    &&& entries.len() == 3
    &&& entries[0].0@ == "code"@
    &&& entries[0].1 == (if error.code >= 0 {
        JsonValue::Number(JsonNumber::PosInt(error.code as u64))
    } else {
        JsonValue::Number(JsonNumber::NegInt(error.code as i64))
    })
    &&& entries[1].0@ == "message"@
    &&& entries[1].1 matches JsonValue::String(m) && m@ == error.message@
    &&& entries[2].0@ == "data"@
    &&& match error.data {
        Some(d) => json_eq(d, entries[2].1),
        None => entries[2].1 == JsonValue::Null,
    }
}

/// `r` is the document `{"jsonrpc": .., "id": .., "error": ..}` of an error
/// response with these parts.
pub open spec fn is_error_envelope(r: JsonValue, jsonrpc: Seq<char>, id: JsonValue, error: JsonRpcError) -> bool {
    r matches JsonValue::Object(fields) && {
        &&& fields@.len() == 3
        &&& fields@[0].0@ == "jsonrpc"@
        &&& fields@[0].1 matches JsonValue::String(j) && j@ == jsonrpc
        &&& fields@[1].0@ == "id"@
        &&& json_eq(id, fields@[1].1)
        &&& fields@[2].0@ == "error"@
        &&& fields@[2].1 matches JsonValue::Object(e) && error_object(e@, error)
    }
}

/// Build the document `{"jsonrpc": .., "id": .., "error": ..}` of an error
/// response, for the kept raw response of an API error.
pub fn build_raw_error_response(jsonrpc: &str, id: &JsonValue, error: &JsonRpcError) -> (r: JsonValue)
    ensures
        is_error_envelope(r, jsonrpc@, *id, *error),
{
    let code = if error.code >= 0 {
        JsonValue::Number(JsonNumber::PosInt(error.code as u64))
    } else {
        JsonValue::Number(JsonNumber::NegInt(error.code as i64))
    };
    let data = match &error.data {
        Some(d) => d.deep_clone(),
        None => JsonValue::Null,
    };
    let mut e: Vec<(String, JsonValue)> = Vec::new();
    e.push((owned("code"), code));
    e.push((owned("message"), JsonValue::String(error.message.clone())));
    e.push((owned("data"), data));
    let mut fields: Vec<(String, JsonValue)> = Vec::new();
    fields.push((owned("jsonrpc"), JsonValue::from_str(jsonrpc)));
    fields.push((owned("id"), id.deep_clone()));
    fields.push((owned("error"), JsonValue::Object(e)));
    JsonValue::Object(fields)
}

} // verus!
