//! The routing rules of a WebSocket connection: which inbound frames are
//! responses to pending requests and which are notifications.

pub mod dispatcher;
