//! The deprecated, basic set of subscription channel names (superseded by
//! `model::ws_types::SubscriptionChannel`, which covers every channel type).

use vstd::prelude::*;
use crate::model::ws_types::{join3, join5};
use crate::text::join_dots;

verus! {

/// Subscription channels of the deprecated basic interface.
#[derive(Debug, Clone)]
pub enum SubscriptionChannel {
    /// Ticker data for a specific instrument
    Ticker(String),
    /// Order book data for a specific instrument
    OrderBook(String),
    /// Trade data for a specific instrument
    Trades(String),
    /// User's order updates
    UserOrders,
    /// User's trade updates
    UserTrades,
    /// Unknown or unrecognized channel
    Unknown(String),
}

/// The channel name of a basic subscription channel.
pub open spec fn basic_channel_text(c: SubscriptionChannel) -> Seq<char> {
    match c {
        SubscriptionChannel::Ticker(i) => join_dots(seq!["ticker"@, i@, "raw"@]),
        SubscriptionChannel::OrderBook(i) => join_dots(seq!["book"@, i@, "raw"@]),
        SubscriptionChannel::Trades(i) => join_dots(seq!["trades"@, i@, "raw"@]),
        SubscriptionChannel::UserOrders => join_dots(
            seq!["user"@, "orders"@, "any"@, "any"@, "raw"@],
        ),
        SubscriptionChannel::UserTrades => join_dots(
            seq!["user"@, "trades"@, "any"@, "any"@, "raw"@],
        ),
        SubscriptionChannel::Unknown(name) => name@,
    }
}

impl SubscriptionChannel {
    /// The channel name, as the basic interface displays it.
    pub fn to_string(&self) -> (s: String)
        ensures
            s@ == basic_channel_text(*self),
    {
        match self {
            SubscriptionChannel::Ticker(i) => join3("ticker", i.as_str(), "raw"),
            SubscriptionChannel::OrderBook(i) => join3("book", i.as_str(), "raw"),
            SubscriptionChannel::Trades(i) => join3("trades", i.as_str(), "raw"),
            SubscriptionChannel::UserOrders => join5("user", "orders", "any", "any", "raw"),
            SubscriptionChannel::UserTrades => join5("user", "trades", "any", "any", "raw"),
            SubscriptionChannel::Unknown(name) => name.clone(),
        }
    }
}

} // verus!
