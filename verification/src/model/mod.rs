//! Model definitions for the WebSocket client.

pub mod account;
pub mod quote;
pub mod subscription;
pub mod trading;
pub mod ws_types;
