//! Verified core of a Deribit WebSocket API client: JSON-RPC message
//! construction, subscription bookkeeping, channel naming, response
//! reconciliation, error redaction and the request/response routing rules
//! of the connection dispatcher.

pub mod callback;
pub mod client;
pub mod config;
pub mod connection;
pub mod constants;
pub mod error;
pub mod json;
pub mod logging;
pub mod message;
pub mod model;
pub mod subscriptions;
pub mod text;
pub mod tls;
