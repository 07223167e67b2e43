//! JSON-RPC method names.

use vstd::prelude::*;

verus! {

/// Public authentication method
pub const PUBLIC_AUTH: &'static str = "public/auth";
/// Private logout method
pub const PRIVATE_LOGOUT: &'static str = "private/logout";
/// Public subscription method
pub const PUBLIC_SUBSCRIBE: &'static str = "public/subscribe";
/// Public unsubscription method
pub const PUBLIC_UNSUBSCRIBE: &'static str = "public/unsubscribe";
/// Public unsubscribe from all channels
pub const PUBLIC_UNSUBSCRIBE_ALL: &'static str = "public/unsubscribe_all";
/// Private subscription method
pub const PRIVATE_SUBSCRIBE: &'static str = "private/subscribe";
/// Private unsubscription method
pub const PRIVATE_UNSUBSCRIBE: &'static str = "private/unsubscribe";
/// Private unsubscribe from all channels
pub const PRIVATE_UNSUBSCRIBE_ALL: &'static str = "private/unsubscribe_all";
/// Get ticker information
pub const PUBLIC_GET_TICKER: &'static str = "public/ticker";
/// Get order book data
pub const PUBLIC_GET_ORDERBOOK: &'static str = "public/get_order_book";
/// Get trade history
pub const PUBLIC_GET_TRADES: &'static str = "public/get_last_trades_by_instrument";
/// Get instrument information
pub const PUBLIC_GET_INSTRUMENTS: &'static str = "public/get_instruments";
/// Place buy order
pub const PRIVATE_BUY: &'static str = "private/buy";
/// Place sell order
pub const PRIVATE_SELL: &'static str = "private/sell";
/// Cancel specific order
pub const PRIVATE_CANCEL: &'static str = "private/cancel";
/// Cancel all orders
pub const PRIVATE_CANCEL_ALL: &'static str = "private/cancel_all";
/// Cancel all orders by currency
pub const PRIVATE_CANCEL_ALL_BY_CURRENCY: &'static str = "private/cancel_all_by_currency";
/// Cancel all orders by instrument
pub const PRIVATE_CANCEL_ALL_BY_INSTRUMENT: &'static str = "private/cancel_all_by_instrument";
/// Edit an existing order
pub const PRIVATE_EDIT: &'static str = "private/edit";
/// Get open orders
pub const PRIVATE_GET_OPEN_ORDERS: &'static str = "private/get_open_orders";
/// Get account summary
pub const PRIVATE_GET_ACCOUNT_SUMMARY: &'static str = "private/get_account_summary";
/// Get positions
pub const PRIVATE_GET_POSITIONS: &'static str = "private/get_positions";
/// Get subaccounts
pub const PRIVATE_GET_SUBACCOUNTS: &'static str = "private/get_subaccounts";
/// Get order state
pub const PRIVATE_GET_ORDER_STATE: &'static str = "private/get_order_state";
/// Get order history by currency
pub const PRIVATE_GET_ORDER_HISTORY_BY_CURRENCY: &'static str = "private/get_order_history_by_currency";
/// Close an existing position
pub const PRIVATE_CLOSE_POSITION: &'static str = "private/close_position";
/// Move positions between subaccounts
pub const PRIVATE_MOVE_POSITIONS: &'static str = "private/move_positions";
/// Test connection
pub const PUBLIC_TEST: &'static str = "public/test";
/// Get server time
pub const PUBLIC_GET_TIME: &'static str = "public/get_time";
/// Hello message
pub const PUBLIC_HELLO: &'static str = "public/hello";
/// Enable heartbeat messages
pub const PUBLIC_SET_HEARTBEAT: &'static str = "public/set_heartbeat";
/// Disable heartbeat messages
pub const PUBLIC_DISABLE_HEARTBEAT: &'static str = "public/disable_heartbeat";
/// Enable cancel-on-disconnect
pub const PRIVATE_ENABLE_CANCEL_ON_DISCONNECT: &'static str = "private/enable_cancel_on_disconnect";
/// Disable cancel-on-disconnect
pub const PRIVATE_DISABLE_CANCEL_ON_DISCONNECT: &'static str = "private/disable_cancel_on_disconnect";
/// Get cancel-on-disconnect status
pub const PRIVATE_GET_CANCEL_ON_DISCONNECT: &'static str = "private/get_cancel_on_disconnect";

} // verus!
