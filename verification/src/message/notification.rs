//! Reading JSON-RPC notifications.

use vstd::prelude::*;
use crate::json::{member, text_of, json_eq, JsonValue};
use crate::model::ws_types::JsonRpcNotification;
use crate::text::{is_prefix, starts_with};

verus! {

/// Notification handler for WebSocket messages.
#[derive(Debug, Clone, Copy)]
pub struct NotificationHandler;

/// The entry `key` of the notification's parameters.
pub open spec fn param_entry(n: JsonRpcNotification, key: Seq<char>) -> Option<JsonValue> {
    match n.params {
        Some(p) => member(p, key),
        None => None,
    }
}

impl NotificationHandler {
    /// Create a new notification handler.
    pub fn new() -> (r: Self) {
        NotificationHandler
    }

    /// Whether the notification's method starts with `subscription`.
    pub fn is_subscription_notification(&self, notification: &JsonRpcNotification) -> (r: bool)
        ensures
            r == is_prefix("subscription"@, notification.method@),
    {
        starts_with(notification.method.as_str(), "subscription")
    }

    /// The channel a subscription notification names in `params.channel`,
    /// when that entry is a string.
    pub fn extract_channel(&self, notification: &JsonRpcNotification) -> (r: Option<String>)
        ensures
            match param_entry(*notification, "channel"@) {
                Some(v) => match text_of(v) {
                    Some(t) => r matches Some(s) && s@ == t,
                    None => r is None,
                },
                None => r is None,
            },
    {
        if let Some(params) = &notification.params {
            if let Some(channel) = params.get("channel") {
                return match channel.as_str() {
                    Some(s) => Some(s.clone()),
                    None => None,
                };
            }
        }
        None
    }

    /// A copy of the payload a subscription notification carries in
    /// `params.data`.
    pub fn extract_data(&self, notification: &JsonRpcNotification) -> (r: Option<JsonValue>)
        ensures
            match param_entry(*notification, "data"@) {
                Some(v) => r matches Some(d) && json_eq(v, d),
                None => r is None,
            },
    {
        if let Some(params) = &notification.params {
            if let Some(data) = params.get("data") {
                return Some(data.deep_clone());
            }
        }
        None
    }
}

impl Default for NotificationHandler {
    fn default() -> (r: Self) {
        NotificationHandler::new()
    }
}

} // verus!
