//! Constants for the WebSocket client.

pub mod channels;
pub mod methods;

use vstd::prelude::*;

verus! {

/// Default heartbeat interval in seconds
pub const DEFAULT_HEARTBEAT_INTERVAL: u64 = 30;

/// Maximum reconnection attempts
pub const MAX_RECONNECT_ATTEMPTS: u32 = 5;

/// WebSocket URL for Deribit production
pub const PRODUCTION_WS_URL: &'static str = "wss://www.deribit.com/ws/api/v2";

/// WebSocket URL for Deribit testnet
pub const TESTNET_WS_URL: &'static str = "wss://test.deribit.com/ws/api/v2";

} // verus!
