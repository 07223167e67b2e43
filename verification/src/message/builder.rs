//! Aggregate message builder for JSON-RPC traffic: a request builder for
//! outbound requests and the handlers for inbound replies and
//! server-initiated pushes.

use vstd::prelude::*;
use crate::message::notification::NotificationHandler;
use crate::message::request::RequestBuilder;
use crate::message::response::ResponseHandler;
use crate::model::ws_types::{JsonRpcNotification, JsonRpcRequest, JsonRpcResponse};

verus! {

/// Aggregate JSON-RPC message builder/parser; one per connection, since
/// the request id counter must not be shared across connections.
#[derive(Debug)]
pub struct MessageBuilder {
    request_builder: RequestBuilder,
    response_handler: ResponseHandler,
    notification_handler: NotificationHandler,
}

/// Classification of a JSON-RPC 2.0 frame.
#[derive(Debug)]
pub enum MessageType {
    /// Outbound request frame.
    Request(JsonRpcRequest),
    /// Inbound reply frame correlated with a request by its id.
    Response(JsonRpcResponse),
    /// Server-initiated push frame without an id.
    Notification(JsonRpcNotification),
}

impl MessageBuilder {
    /// The id the builder's next request will carry.
    pub closed spec fn next_request_id(&self) -> u64 {
        self.request_builder.next_id()
    }

    /// Create a new aggregate message builder with a fresh id counter.
    pub fn new() -> (r: Self)
        ensures
            r.next_request_id() == 1,
    {
        MessageBuilder {
            request_builder: RequestBuilder::new(),
            response_handler: ResponseHandler::new(),
            notification_handler: NotificationHandler::new(),
        }
    }

    /// Borrow the request builder mutably; requests built through it
    /// advance this builder's id counter.
    pub fn request_builder(&mut self) -> (r: &mut RequestBuilder)
        ensures
            r.next_id() == old(self).next_request_id(),
            final(self).next_request_id() == final(r).next_id(),
    {
        &mut self.request_builder
    }

    /// Borrow the response handler.
    pub fn response_handler(&self) -> (r: &ResponseHandler) {
        &self.response_handler
    }

    /// Borrow the notification handler.
    pub fn notification_handler(&self) -> (r: &NotificationHandler) {
        &self.notification_handler
    }

    /// Picks the classification of an inbound frame from what it parsed
    /// as: a response when it reads as one, otherwise a notification when
    /// it reads as one, otherwise nothing.
    pub fn classify(
        response: Option<JsonRpcResponse>,
        notification: Option<JsonRpcNotification>,
    ) -> (r: Option<MessageType>)
        ensures
            match response {
                Some(resp) => r == Some(MessageType::Response(resp)),
                None => match notification {
                    Some(n) => r == Some(MessageType::Notification(n)),
                    None => r is None,
                },
            },
    {
        match response {
            Some(resp) => Some(MessageType::Response(resp)),
            None => match notification {
                Some(n) => Some(MessageType::Notification(n)),
                None => None,
            },
        }
    }
}

impl Default for MessageBuilder {
    fn default() -> (r: Self)
        ensures
            r.next_request_id() == 1,
    {
        MessageBuilder::new()
    }
}

} // verus!
