//! JSON-RPC message building and handling.

pub mod builder;
pub mod notification;
pub mod request;
pub mod response;
