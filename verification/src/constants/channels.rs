//! Subscription channel name prefixes.

use vstd::prelude::*;

verus! {

/// Ticker channel
pub const TICKER: &'static str = "ticker";
/// Order book channel
pub const ORDERBOOK: &'static str = "book";
/// Trades channel
pub const TRADES: &'static str = "trades";
/// User orders channel
pub const USER_ORDERS: &'static str = "user.orders";
/// User trades channel
pub const USER_TRADES: &'static str = "user.trades";
/// User portfolio channel
pub const USER_PORTFOLIO: &'static str = "user.portfolio";
/// Incremental ticker channel
pub const INCREMENTAL_TICKER: &'static str = "incremental_ticker";
/// Price ranking channel
pub const PRICE_RANKING: &'static str = "deribit_price_ranking";
/// Price statistics channel
pub const PRICE_STATISTICS: &'static str = "deribit_price_statistics";
/// Volatility index channel
pub const VOLATILITY_INDEX: &'static str = "deribit_volatility_index";
/// Platform state channel
pub const PLATFORM_STATE: &'static str = "platform_state";
/// Platform state public methods channel
pub const PLATFORM_STATE_PUBLIC_METHODS: &'static str = "platform_state.public_methods_state";
/// Instrument state channel
pub const INSTRUMENT_STATE: &'static str = "instrument.state";
/// Perpetual channel
pub const PERPETUAL: &'static str = "perpetual";
/// Mark price options channel
pub const MARKPRICE_OPTIONS: &'static str = "markprice.options";
/// Quote channel
pub const QUOTE: &'static str = "quote";
/// Block RFQ trades channel
pub const BLOCK_RFQ_TRADES: &'static str = "block_rfq.trades";
/// Block trade confirmations channel
pub const BLOCK_TRADE_CONFIRMATIONS: &'static str = "block_trade_confirmations";
/// User MMP trigger channel
pub const USER_MMP_TRIGGER: &'static str = "user.mmp_trigger";
/// User access log channel
pub const USER_ACCESS_LOG: &'static str = "user.access_log";
/// User lock channel
pub const USER_LOCK: &'static str = "user.lock";

} // verus!
