//! WebSocket-specific types: JSON-RPC envelopes, connection states,
//! heartbeat bookkeeping and subscription channels.

use vstd::prelude::*;

use crate::json::JsonValue;
use crate::text::{
    contains_char, dot_free, owned, has_char, lemma_split_join, is_suffix, join_dots, join_dotted, same_text, split, split_on, to_lowercase,
    to_uppercase, lowercase_text, uppercase_text, is_ascii_text, is_ascii_upper_text, lemma_upper_of_lower, lemma_split_nonempty, lemma_split_pieces,
    lemma_ascii_case_maps, lemma_subrange_keeps, lemma_concat_dot_free,
};

verus! {

/// WebSocket subscription channel types.
#[derive(Debug, Clone, PartialEq, Eq, Hash)]
pub enum SubscriptionChannel {
    /// Ticker data for a specific instrument
    Ticker(String),
    /// Order book data for a specific instrument
    OrderBook(String),
    /// Trade data for a specific instrument
    Trades(String),
    /// Chart trade data for a specific instrument with resolution
    ChartTrades {
        /// The trading instrument (e.g., "BTC-PERPETUAL")
        instrument: String,
        /// Chart resolution (e.g., "1", "5", "15", "60" for minutes)
        resolution: String,
    },
    /// User's order updates
    UserOrders,
    /// User's trade updates
    UserTrades,
    /// User's portfolio updates
    UserPortfolio,
    /// User's position changes for a specific instrument with interval
    UserChanges {
        /// The trading instrument (e.g., "BTC-PERPETUAL")
        instrument: String,
        /// Update interval (e.g., "raw", "100ms")
        interval: String,
    },
    /// Price index updates
    PriceIndex(String),
    /// Estimated delivery price
    EstimatedExpirationPrice(String),
    /// Mark price updates
    MarkPrice(String),
    /// Funding rate updates
    Funding(String),
    /// Perpetual updates with configurable interval
    Perpetual {
        /// The trading instrument (e.g., "BTC-PERPETUAL")
        instrument: String,
        /// Update interval (e.g., "raw", "100ms")
        interval: String,
    },
    /// Quote updates
    Quote(String),
    /// Platform state updates
    PlatformState,
    /// Platform state public methods state updates
    PlatformStatePublicMethods,
    /// Instrument state changes for a specific kind and currency
    InstrumentState {
        /// Instrument kind (e.g., "future", "option", "spot")
        kind: String,
        /// Currency (e.g., "BTC", "ETH")
        currency: String,
    },
    /// Grouped order book with configurable depth and interval
    GroupedOrderBook {
        /// The trading instrument (e.g., "BTC-PERPETUAL")
        instrument: String,
        /// Grouping level for aggregation
        group: String,
        /// Order book depth (e.g., "1", "10", "20")
        depth: String,
        /// Update interval (e.g., "100ms", "agg2")
        interval: String,
    },
    /// Incremental ticker updates for a specific instrument
    IncrementalTicker(String),
    /// Trades by instrument kind (e.g., future, option) and currency
    TradesByKind {
        /// Instrument kind (e.g., "future", "option", "spot", "any")
        kind: String,
        /// Currency (e.g., "BTC", "ETH", "any")
        currency: String,
        /// Update interval (e.g., "raw", "100ms")
        interval: String,
    },
    /// Price ranking data for an index
    PriceRanking(String),
    /// Price statistics for an index
    PriceStatistics(String),
    /// Volatility index data
    VolatilityIndex(String),
    /// Block RFQ trades for a specific currency
    BlockRfqTrades(String),
    /// Block trade confirmations (all currencies)
    BlockTradeConfirmations,
    /// Block trade confirmations for a specific currency
    BlockTradeConfirmationsByCurrency(String),
    /// Unknown or unrecognized channel
    Unknown(String),
}

/// The variant of a [`SubscriptionChannel`], without its data.
#[derive(Clone, Copy, Debug, PartialEq, Eq, Structural)]
pub enum ChannelKind {
    /// See [`SubscriptionChannel::Ticker`]
    Ticker,
    /// See [`SubscriptionChannel::OrderBook`]
    OrderBook,
    /// See [`SubscriptionChannel::Trades`]
    Trades,
    /// See [`SubscriptionChannel::ChartTrades`]
    ChartTrades,
    /// See [`SubscriptionChannel::UserOrders`]
    UserOrders,
    /// See [`SubscriptionChannel::UserTrades`]
    UserTrades,
    /// See [`SubscriptionChannel::UserPortfolio`]
    UserPortfolio,
    /// See [`SubscriptionChannel::UserChanges`]
    UserChanges,
    /// See [`SubscriptionChannel::PriceIndex`]
    PriceIndex,
    /// See [`SubscriptionChannel::EstimatedExpirationPrice`]
    EstimatedExpirationPrice,
    /// See [`SubscriptionChannel::MarkPrice`]
    MarkPrice,
    /// See [`SubscriptionChannel::Funding`]
    Funding,
    /// See [`SubscriptionChannel::Perpetual`]
    Perpetual,
    /// See [`SubscriptionChannel::Quote`]
    Quote,
    /// See [`SubscriptionChannel::PlatformState`]
    PlatformState,
    /// See [`SubscriptionChannel::PlatformStatePublicMethods`]
    PlatformStatePublicMethods,
    /// See [`SubscriptionChannel::InstrumentState`]
    InstrumentState,
    /// See [`SubscriptionChannel::GroupedOrderBook`]
    GroupedOrderBook,
    /// See [`SubscriptionChannel::IncrementalTicker`]
    IncrementalTicker,
    /// See [`SubscriptionChannel::TradesByKind`]
    TradesByKind,
    /// See [`SubscriptionChannel::PriceRanking`]
    PriceRanking,
    /// See [`SubscriptionChannel::PriceStatistics`]
    PriceStatistics,
    /// See [`SubscriptionChannel::VolatilityIndex`]
    VolatilityIndex,
    /// See [`SubscriptionChannel::BlockRfqTrades`]
    BlockRfqTrades,
    /// See [`SubscriptionChannel::BlockTradeConfirmations`]
    BlockTradeConfirmations,
    /// See [`SubscriptionChannel::BlockTradeConfirmationsByCurrency`]
    BlockTradeConfirmationsByCurrency,
    /// See [`SubscriptionChannel::Unknown`]
    Unknown,
}

/// A channel's variant together with the text of its fields, in
/// declaration order.
pub open spec fn channel_shape(ch: SubscriptionChannel) -> (ChannelKind, Seq<Seq<char>>) {
    match ch {
        SubscriptionChannel::Ticker(i) => (ChannelKind::Ticker, seq![i@]),
        SubscriptionChannel::OrderBook(i) => (ChannelKind::OrderBook, seq![i@]),
        SubscriptionChannel::Trades(i) => (ChannelKind::Trades, seq![i@]),
        SubscriptionChannel::ChartTrades { instrument, resolution } => (
            ChannelKind::ChartTrades,
            seq![instrument@, resolution@],
        ),
        SubscriptionChannel::UserOrders => (ChannelKind::UserOrders, seq![]),
        SubscriptionChannel::UserTrades => (ChannelKind::UserTrades, seq![]),
        SubscriptionChannel::UserPortfolio => (ChannelKind::UserPortfolio, seq![]),
        SubscriptionChannel::UserChanges { instrument, interval } => (
            ChannelKind::UserChanges,
            seq![instrument@, interval@],
        ),
        SubscriptionChannel::PriceIndex(c) => (ChannelKind::PriceIndex, seq![c@]),
        SubscriptionChannel::EstimatedExpirationPrice(i) => (
            ChannelKind::EstimatedExpirationPrice,
            seq![i@],
        ),
        SubscriptionChannel::MarkPrice(i) => (ChannelKind::MarkPrice, seq![i@]),
        SubscriptionChannel::Funding(i) => (ChannelKind::Funding, seq![i@]),
        SubscriptionChannel::Perpetual { instrument, interval } => (
            ChannelKind::Perpetual,
            seq![instrument@, interval@],
        ),
        SubscriptionChannel::Quote(i) => (ChannelKind::Quote, seq![i@]),
        SubscriptionChannel::PlatformState => (ChannelKind::PlatformState, seq![]),
        SubscriptionChannel::PlatformStatePublicMethods => (
            ChannelKind::PlatformStatePublicMethods,
            seq![],
        ),
        SubscriptionChannel::InstrumentState { kind, currency } => (
            ChannelKind::InstrumentState,
            seq![kind@, currency@],
        ),
        SubscriptionChannel::GroupedOrderBook { instrument, group, depth, interval } => (
            ChannelKind::GroupedOrderBook,
            seq![instrument@, group@, depth@, interval@],
        ),
        SubscriptionChannel::IncrementalTicker(i) => (ChannelKind::IncrementalTicker, seq![i@]),
        SubscriptionChannel::TradesByKind { kind, currency, interval } => (
            ChannelKind::TradesByKind,
            seq![kind@, currency@, interval@],
        ),
        SubscriptionChannel::PriceRanking(n) => (ChannelKind::PriceRanking, seq![n@]),
        SubscriptionChannel::PriceStatistics(n) => (ChannelKind::PriceStatistics, seq![n@]),
        SubscriptionChannel::VolatilityIndex(n) => (ChannelKind::VolatilityIndex, seq![n@]),
        SubscriptionChannel::BlockRfqTrades(c) => (ChannelKind::BlockRfqTrades, seq![c@]),
        SubscriptionChannel::BlockTradeConfirmations => (
            ChannelKind::BlockTradeConfirmations,
            seq![],
        ),
        SubscriptionChannel::BlockTradeConfirmationsByCurrency(c) => (
            ChannelKind::BlockTradeConfirmationsByCurrency,
            seq![c@],
        ),
        SubscriptionChannel::Unknown(s) => (ChannelKind::Unknown, seq![s@]),
    }
}

/// The dot-separated pieces of a channel's name.
pub open spec fn channel_name_parts(ch: SubscriptionChannel) -> Seq<Seq<char>> {
    match ch {
        SubscriptionChannel::Ticker(i) => seq!["ticker"@, i@],
        SubscriptionChannel::OrderBook(i) => seq!["book"@, i@, "raw"@],
        SubscriptionChannel::Trades(i) => seq!["trades"@, i@, "raw"@],
        SubscriptionChannel::ChartTrades { instrument, resolution } => seq![
            "chart"@,
            "trades"@,
            instrument@,
            resolution@,
        ],
        SubscriptionChannel::UserOrders => seq!["user"@, "orders"@, "any"@, "any"@, "raw"@],
        SubscriptionChannel::UserTrades => seq!["user"@, "trades"@, "any"@, "any"@, "raw"@],
        SubscriptionChannel::UserPortfolio => seq!["user"@, "portfolio"@, "any"@],
        SubscriptionChannel::UserChanges { instrument, interval } => seq![
            "user"@,
            "changes"@,
            instrument@,
            interval@,
        ],
        SubscriptionChannel::PriceIndex(c) => seq![
            "deribit_price_index"@,
            lowercase_text(c@) + "_usd"@,
        ],
        SubscriptionChannel::EstimatedExpirationPrice(i) => seq!["estimated_expiration_price"@, i@],
        SubscriptionChannel::MarkPrice(i) => seq!["markprice"@, "options"@, i@],
        SubscriptionChannel::Funding(i) => seq!["perpetual"@, i@, "raw"@],
        SubscriptionChannel::Perpetual { instrument, interval } => seq![
            "perpetual"@,
            instrument@,
            interval@,
        ],
        SubscriptionChannel::Quote(i) => seq!["quote"@, i@],
        SubscriptionChannel::PlatformState => seq!["platform_state"@],
        SubscriptionChannel::PlatformStatePublicMethods => seq![
            "platform_state"@,
            "public_methods_state"@,
        ],
        SubscriptionChannel::InstrumentState { kind, currency } => seq![
            "instrument"@,
            "state"@,
            kind@,
            currency@,
        ],
        SubscriptionChannel::GroupedOrderBook { instrument, group, depth, interval } => seq![
            "book"@,
            instrument@,
            group@,
            depth@,
            interval@,
        ],
        SubscriptionChannel::IncrementalTicker(i) => seq!["incremental_ticker"@, i@],
        SubscriptionChannel::TradesByKind { kind, currency, interval } => seq![
            "trades"@,
            kind@,
            currency@,
            interval@,
        ],
        SubscriptionChannel::PriceRanking(n) => seq!["deribit_price_ranking"@, n@],
        SubscriptionChannel::PriceStatistics(n) => seq!["deribit_price_statistics"@, n@],
        SubscriptionChannel::VolatilityIndex(n) => seq!["deribit_volatility_index"@, n@],
        SubscriptionChannel::BlockRfqTrades(c) => seq!["block_rfq"@, "trades"@, c@],
        SubscriptionChannel::BlockTradeConfirmations => seq!["block_trade_confirmations"@],
        SubscriptionChannel::BlockTradeConfirmationsByCurrency(c) => seq![
            "block_trade_confirmations"@,
            c@,
        ],
        SubscriptionChannel::Unknown(s) => seq![s@],
    }
}

/// The channel name the server uses for a subscription channel.
pub open spec fn channel_name_of(ch: SubscriptionChannel) -> Seq<char> {
    join_dots(channel_name_parts(ch))
}

/// A currency pair with a trailing `_usd` removed, when it has one.
pub open spec fn strip_usd(p: Seq<char>) -> Seq<char> {
    if is_suffix("_usd"@, p) {
        p.subrange(0, p.len() - 4)
    } else {
        p
    }
}

/// The channel that the pieces `p` of the channel name `s` denote; the
/// cases are tried in order and the first that fits wins.
pub open spec fn channel_of_parts(p: Seq<Seq<char>>, s: Seq<char>) -> (ChannelKind, Seq<Seq<char>>) {
    let n = p.len();
    if n == 2 && p[0] == "ticker"@ {
        (ChannelKind::Ticker, seq![p[1]])
    } else if n == 3 && p[0] == "ticker"@ {
        (ChannelKind::Ticker, seq![p[1]])
    } else if n == 3 && p[0] == "book"@ && p[2] == "raw"@ {
        (ChannelKind::OrderBook, seq![p[1]])
    } else if n == 5 && p[0] == "book"@ {
        (ChannelKind::GroupedOrderBook, seq![p[1], p[2], p[3], p[4]])
    } else if n == 4 && p[0] == "book"@ {
        (ChannelKind::OrderBook, seq![p[1]])
    } else if n == 2 && p[0] == "incremental_ticker"@ {
        (ChannelKind::IncrementalTicker, seq![p[1]])
    } else if n == 3 && p[0] == "trades"@ && p[2] == "raw"@ {
        (ChannelKind::Trades, seq![p[1]])
    } else if n == 4 && p[0] == "trades"@ && !has_char(p[1], '-') {
        (ChannelKind::TradesByKind, seq![p[1], p[2], p[3]])
    } else if n == 3 && p[0] == "trades"@ {
        (ChannelKind::Trades, seq![p[1]])
    } else if n == 4 && p[0] == "chart"@ && p[1] == "trades"@ {
        (ChannelKind::ChartTrades, seq![p[2], p[3]])
    } else if n >= 2 && p[0] == "user"@ && p[1] == "orders"@ {
        (ChannelKind::UserOrders, seq![])
    } else if n >= 2 && p[0] == "user"@ && p[1] == "trades"@ {
        (ChannelKind::UserTrades, seq![])
    } else if n >= 2 && p[0] == "user"@ && p[1] == "portfolio"@ {
        (ChannelKind::UserPortfolio, seq![])
    } else if n == 4 && p[0] == "user"@ && p[1] == "changes"@ {
        (ChannelKind::UserChanges, seq![p[2], p[3]])
    } else if n == 2 && p[0] == "deribit_price_index"@ {
        (ChannelKind::PriceIndex, seq![uppercase_text(strip_usd(p[1]))])
    } else if n == 2 && p[0] == "estimated_expiration_price"@ {
        (ChannelKind::EstimatedExpirationPrice, seq![p[1]])
    } else if n == 3 && p[0] == "markprice"@ && p[1] == "options"@ {
        (ChannelKind::MarkPrice, seq![p[2]])
    } else if n == 3 && p[0] == "perpetual"@ {
        (ChannelKind::Perpetual, seq![p[1], p[2]])
    } else if n == 2 && p[0] == "quote"@ {
        (ChannelKind::Quote, seq![p[1]])
    } else if n == 1 && p[0] == "platform_state"@ {
        (ChannelKind::PlatformState, seq![])
    } else if n == 2 && p[0] == "platform_state"@ && p[1] == "public_methods_state"@ {
        (ChannelKind::PlatformStatePublicMethods, seq![])
    } else if n == 4 && p[0] == "instrument"@ && p[1] == "state"@ {
        (ChannelKind::InstrumentState, seq![p[2], p[3]])
    } else if n == 2 && p[0] == "deribit_price_ranking"@ {
        (ChannelKind::PriceRanking, seq![p[1]])
    } else if n == 2 && p[0] == "deribit_price_statistics"@ {
        (ChannelKind::PriceStatistics, seq![p[1]])
    } else if n == 2 && p[0] == "deribit_volatility_index"@ {
        (ChannelKind::VolatilityIndex, seq![p[1]])
    } else if n == 3 && p[0] == "block_rfq"@ && p[1] == "trades"@ {
        (ChannelKind::BlockRfqTrades, seq![p[2]])
    } else if n == 1 && p[0] == "block_trade_confirmations"@ {
        (ChannelKind::BlockTradeConfirmations, seq![])
    } else if n == 2 && p[0] == "block_trade_confirmations"@ {
        (ChannelKind::BlockTradeConfirmationsByCurrency, seq![p[1]])
    } else {
        (ChannelKind::Unknown, seq![s])
    }
}

/// The channel that the name `s` denotes.
pub open spec fn parse_channel(s: Seq<char>) -> (ChannelKind, Seq<Seq<char>>) {
    channel_of_parts(split_on(s, '.'), s)
}


/// A channel whose name parses back to it: its name pieces hold no `.`,
/// it is not a funding channel (its name reads as a perpetual channel), a
/// kind-and-currency trades channel has no `-` in its kind, and an unknown
/// channel's text is not a recognised name.
pub open spec fn name_is_unambiguous(ch: SubscriptionChannel) -> bool {
    match ch {
        SubscriptionChannel::Unknown(s) => parse_channel(s@).0 == ChannelKind::Unknown,
        SubscriptionChannel::Funding(_) => false,
        SubscriptionChannel::TradesByKind { kind, .. } => {
            &&& dot_free(channel_name_parts(ch))
            &&& !has_char(kind@, '-')
        },
        _ => dot_free(channel_name_parts(ch)),
    }
}

/// Naming a channel and parsing the name gives the channel back; a price
/// index channel comes back with its currency lower-cased and then
/// upper-cased, which is the currency itself when it is ASCII text with no
/// lower-case letter.
pub proof fn lemma_channel_name_round_trip(ch: SubscriptionChannel)
    requires
        name_is_unambiguous(ch),
    ensures
        (ch matches SubscriptionChannel::PriceIndex(c) ==> is_ascii_upper_text(c@))
            ==> parse_channel(channel_name_of(ch)) == channel_shape(ch),
        ch is PriceIndex ==> parse_channel(channel_name_of(ch)) == (
            ChannelKind::PriceIndex,
            seq![uppercase_text(lowercase_text(channel_shape(ch).1[0]))],
        ),
        !(ch is PriceIndex) ==> parse_channel(channel_name_of(ch)) == channel_shape(ch),
{
    lemma_channel_words();
    let parts = channel_name_parts(ch);
    let name = channel_name_of(ch);
    match ch {
        SubscriptionChannel::Ticker(_) => {
            lemma_split_join(parts);
            assert(channel_of_parts(parts, name).1 =~= channel_shape(ch).1);
        },
        SubscriptionChannel::OrderBook(_) => {
            lemma_split_join(parts);
            assert(channel_of_parts(parts, name).1 =~= channel_shape(ch).1);
        },
        SubscriptionChannel::Trades(_) => {
            lemma_split_join(parts);
            assert(channel_of_parts(parts, name).1 =~= channel_shape(ch).1);
        },
        SubscriptionChannel::ChartTrades { .. } => {
            lemma_split_join(parts);
            assert(channel_of_parts(parts, name).1 =~= channel_shape(ch).1);
        },
        SubscriptionChannel::UserOrders => {
            lemma_split_join(parts);
            assert(channel_of_parts(parts, name).1 =~= channel_shape(ch).1);
        },
        SubscriptionChannel::UserTrades => {
            lemma_split_join(parts);
            assert(channel_of_parts(parts, name).1 =~= channel_shape(ch).1);
        },
        SubscriptionChannel::UserPortfolio => {
            lemma_split_join(parts);
            assert(channel_of_parts(parts, name).1 =~= channel_shape(ch).1);
        },
        SubscriptionChannel::UserChanges { .. } => {
            lemma_split_join(parts);
            assert(channel_of_parts(parts, name).1 =~= channel_shape(ch).1);
        },
        SubscriptionChannel::EstimatedExpirationPrice(_) => {
            lemma_split_join(parts);
            assert(channel_of_parts(parts, name).1 =~= channel_shape(ch).1);
        },
        SubscriptionChannel::MarkPrice(_) => {
            lemma_split_join(parts);
            assert(channel_of_parts(parts, name).1 =~= channel_shape(ch).1);
        },
        SubscriptionChannel::Perpetual { .. } => {
            lemma_split_join(parts);
            assert(channel_of_parts(parts, name).1 =~= channel_shape(ch).1);
        },
        SubscriptionChannel::Quote(_) => {
            lemma_split_join(parts);
            assert(channel_of_parts(parts, name).1 =~= channel_shape(ch).1);
        },
        SubscriptionChannel::PlatformState => {
            lemma_split_join(parts);
            assert(channel_of_parts(parts, name).1 =~= channel_shape(ch).1);
        },
        SubscriptionChannel::PlatformStatePublicMethods => {
            lemma_split_join(parts);
            assert(channel_of_parts(parts, name).1 =~= channel_shape(ch).1);
        },
        SubscriptionChannel::InstrumentState { .. } => {
            lemma_split_join(parts);
            assert(channel_of_parts(parts, name).1 =~= channel_shape(ch).1);
        },
        SubscriptionChannel::GroupedOrderBook { .. } => {
            lemma_split_join(parts);
            assert(channel_of_parts(parts, name).1 =~= channel_shape(ch).1);
        },
        SubscriptionChannel::IncrementalTicker(_) => {
            lemma_split_join(parts);
            assert(channel_of_parts(parts, name).1 =~= channel_shape(ch).1);
        },
        SubscriptionChannel::TradesByKind { .. } => {
            lemma_split_join(parts);
            assert(channel_of_parts(parts, name).1 =~= channel_shape(ch).1);
        },
        SubscriptionChannel::PriceRanking(_) => {
            lemma_split_join(parts);
            assert(channel_of_parts(parts, name).1 =~= channel_shape(ch).1);
        },
        SubscriptionChannel::PriceStatistics(_) => {
            lemma_split_join(parts);
            assert(channel_of_parts(parts, name).1 =~= channel_shape(ch).1);
        },
        SubscriptionChannel::VolatilityIndex(_) => {
            lemma_split_join(parts);
            assert(channel_of_parts(parts, name).1 =~= channel_shape(ch).1);
        },
        SubscriptionChannel::BlockRfqTrades(_) => {
            lemma_split_join(parts);
            assert(channel_of_parts(parts, name).1 =~= channel_shape(ch).1);
        },
        SubscriptionChannel::BlockTradeConfirmations => {
            lemma_split_join(parts);
            assert(channel_of_parts(parts, name).1 =~= channel_shape(ch).1);
        },
        SubscriptionChannel::BlockTradeConfirmationsByCurrency(_) => {
            lemma_split_join(parts);
            assert(channel_of_parts(parts, name).1 =~= channel_shape(ch).1);
        },
        SubscriptionChannel::PriceIndex(c) => {
            lemma_split_join(parts);
            let pair = lowercase_text(c@) + "_usd"@;
            assert(pair.subrange(pair.len() - 4, pair.len() as int) =~= "_usd"@);
            assert(pair.subrange(0, pair.len() - 4) =~= lowercase_text(c@));
            assert(channel_of_parts(parts, name).1 =~= seq![
                uppercase_text(lowercase_text(c@)),
            ]);
            if is_ascii_upper_text(c@) {
                lemma_upper_of_lower(c@);
                assert(channel_shape(ch).1 =~= seq![uppercase_text(lowercase_text(c@))]);
            }
        },
        SubscriptionChannel::Funding(_) => {},
        SubscriptionChannel::Unknown(_) => {
            assert(name == parts[0]);
        },
    }
}

/// The fields that a parsed channel name gives: no channel is read as a
/// funding channel; the fields of a recognised channel other than a price
/// index are pieces of the name and so hold no `.`; a price index holds the
/// upper-cased currency of its second piece; a kind-and-currency trades
/// channel has no `-` in its kind; an unknown channel holds the whole name.
proof fn lemma_parsed_fields(p: Seq<Seq<char>>, s: Seq<char>)
    requires
        dot_free(p),
    ensures
        channel_of_parts(p, s).0 != ChannelKind::Funding,
        channel_of_parts(p, s).0 != ChannelKind::Unknown && channel_of_parts(p, s).0 != ChannelKind::PriceIndex
            ==> dot_free(channel_of_parts(p, s).1),
        channel_of_parts(p, s).0 == ChannelKind::PriceIndex ==> p.len() == 2 && channel_of_parts(p, s).1
            == seq![uppercase_text(strip_usd(p[1]))],
        channel_of_parts(p, s).0 == ChannelKind::TradesByKind ==> !has_char(channel_of_parts(p, s).1[0], '-'),
        channel_of_parts(p, s).0 == ChannelKind::Unknown ==> channel_of_parts(p, s).1 == seq![s],
{
}

/// A channel with plain fields: not a funding channel (its name reads as a
/// perpetual channel); its fields hold no `.`; a price index's currency is
/// ASCII text; a kind-and-currency trades channel has no `-` in its kind; and
/// an unknown channel's text is not a recognised name.
pub open spec fn has_plain_fields(ch: SubscriptionChannel) -> bool {
    match ch {
        SubscriptionChannel::Unknown(s) => parse_channel(s@).0 == ChannelKind::Unknown,
        SubscriptionChannel::Funding(_) => false,
        SubscriptionChannel::PriceIndex(c) => is_ascii_text(c@) && !has_char(c@, '.'),
        SubscriptionChannel::TradesByKind { kind, .. } => {
            &&& dot_free(channel_shape(ch).1)
            &&& !has_char(kind@, '-')
        },
        _ => dot_free(channel_shape(ch).1),
    }
}

/// A channel with plain fields names itself unambiguously, and parsing its
/// name gives it back when a price index's currency has no lower-case
/// letter.
pub proof fn lemma_plain_fields_round_trip(ch: SubscriptionChannel)
    requires
        has_plain_fields(ch),
    ensures
        name_is_unambiguous(ch),
        (ch matches SubscriptionChannel::PriceIndex(c) ==> is_ascii_upper_text(c@))
            ==> parse_channel(channel_name_of(ch)) == channel_shape(ch),
{
    lemma_channel_words_dot_free();
    let parts = channel_name_parts(ch);
    match ch {
        SubscriptionChannel::PriceIndex(c) => {
            lemma_ascii_case_maps(c@);
            lemma_concat_dot_free(lowercase_text(c@), "_usd"@);
            assert(dot_free(parts));
        },
        SubscriptionChannel::Unknown(_) => {},
        SubscriptionChannel::Funding(_) => {},
        SubscriptionChannel::Ticker(i) => {
            assert(channel_shape(ch).1[0] == i@);
            assert(!has_char(i@, '.'));
            assert(dot_free(parts));
        },
        SubscriptionChannel::OrderBook(i) => {
            assert(channel_shape(ch).1[0] == i@);
            assert(!has_char(i@, '.'));
            assert(dot_free(parts));
        },
        SubscriptionChannel::Trades(i) => {
            assert(channel_shape(ch).1[0] == i@);
            assert(!has_char(i@, '.'));
            assert(dot_free(parts));
        },
        SubscriptionChannel::ChartTrades { instrument, resolution } => {
            assert(channel_shape(ch).1[0] == instrument@);
            assert(!has_char(instrument@, '.'));
            assert(channel_shape(ch).1[1] == resolution@);
            assert(!has_char(resolution@, '.'));
            assert(dot_free(parts));
        },
        SubscriptionChannel::UserOrders => {
            assert(dot_free(parts));
        },
        SubscriptionChannel::UserTrades => {
            assert(dot_free(parts));
        },
        SubscriptionChannel::UserPortfolio => {
            assert(dot_free(parts));
        },
        SubscriptionChannel::UserChanges { instrument, interval } => {
            assert(channel_shape(ch).1[0] == instrument@);
            assert(!has_char(instrument@, '.'));
            assert(channel_shape(ch).1[1] == interval@);
            assert(!has_char(interval@, '.'));
            assert(dot_free(parts));
        },
        SubscriptionChannel::EstimatedExpirationPrice(i) => {
            assert(channel_shape(ch).1[0] == i@);
            assert(!has_char(i@, '.'));
            assert(dot_free(parts));
        },
        SubscriptionChannel::MarkPrice(i) => {
            assert(channel_shape(ch).1[0] == i@);
            assert(!has_char(i@, '.'));
            assert(dot_free(parts));
        },
        SubscriptionChannel::Perpetual { instrument, interval } => {
            assert(channel_shape(ch).1[0] == instrument@);
            assert(!has_char(instrument@, '.'));
            assert(channel_shape(ch).1[1] == interval@);
            assert(!has_char(interval@, '.'));
            assert(dot_free(parts));
        },
        SubscriptionChannel::Quote(i) => {
            assert(channel_shape(ch).1[0] == i@);
            assert(!has_char(i@, '.'));
            assert(dot_free(parts));
        },
        SubscriptionChannel::PlatformState => {
            assert(dot_free(parts));
        },
        SubscriptionChannel::PlatformStatePublicMethods => {
            assert(dot_free(parts));
        },
        SubscriptionChannel::InstrumentState { kind, currency } => {
            assert(channel_shape(ch).1[0] == kind@);
            assert(!has_char(kind@, '.'));
            assert(channel_shape(ch).1[1] == currency@);
            assert(!has_char(currency@, '.'));
            assert(dot_free(parts));
        },
        SubscriptionChannel::GroupedOrderBook { instrument, group, depth, interval } => {
            assert(channel_shape(ch).1[0] == instrument@);
            assert(!has_char(instrument@, '.'));
            assert(channel_shape(ch).1[1] == group@);
            assert(!has_char(group@, '.'));
            assert(channel_shape(ch).1[2] == depth@);
            assert(!has_char(depth@, '.'));
            assert(channel_shape(ch).1[3] == interval@);
            assert(!has_char(interval@, '.'));
            assert(dot_free(parts));
        },
        SubscriptionChannel::IncrementalTicker(i) => {
            assert(channel_shape(ch).1[0] == i@);
            assert(!has_char(i@, '.'));
            assert(dot_free(parts));
        },
        SubscriptionChannel::TradesByKind { kind, currency, interval } => {
            assert(channel_shape(ch).1[0] == kind@);
            assert(!has_char(kind@, '.'));
            assert(channel_shape(ch).1[1] == currency@);
            assert(!has_char(currency@, '.'));
            assert(channel_shape(ch).1[2] == interval@);
            assert(!has_char(interval@, '.'));
            assert(dot_free(parts));
        },
        SubscriptionChannel::PriceRanking(n) => {
            assert(channel_shape(ch).1[0] == n@);
            assert(!has_char(n@, '.'));
            assert(dot_free(parts));
        },
        SubscriptionChannel::PriceStatistics(n) => {
            assert(channel_shape(ch).1[0] == n@);
            assert(!has_char(n@, '.'));
            assert(dot_free(parts));
        },
        SubscriptionChannel::VolatilityIndex(n) => {
            assert(channel_shape(ch).1[0] == n@);
            assert(!has_char(n@, '.'));
            assert(dot_free(parts));
        },
        SubscriptionChannel::BlockRfqTrades(c) => {
            assert(channel_shape(ch).1[0] == c@);
            assert(!has_char(c@, '.'));
            assert(dot_free(parts));
        },
        SubscriptionChannel::BlockTradeConfirmations => {
            assert(dot_free(parts));
        },
        SubscriptionChannel::BlockTradeConfirmationsByCurrency(c) => {
            assert(channel_shape(ch).1[0] == c@);
            assert(!has_char(c@, '.'));
            assert(dot_free(parts));
        },
    }
    lemma_channel_name_round_trip(ch);
}

/// Parsing a channel name given as ASCII text, naming the channel that it
/// denotes, and parsing that name again gives the same channel.
pub proof fn lemma_parsed_channel_round_trip(s: Seq<char>, ch: SubscriptionChannel)
    requires
        is_ascii_text(s),
        channel_shape(ch) == parse_channel(s),
    ensures
        parse_channel(channel_name_of(ch)) == channel_shape(ch),
{
    let p = split_on(s, '.');
    lemma_split_nonempty(s, '.');
    lemma_split_pieces(s, '.');
    assert(dot_free(p));
    lemma_parsed_fields(p, s);
    match ch {
        SubscriptionChannel::PriceIndex(c) => {
            let t = p[1];
            let st = strip_usd(t);
            if is_suffix("_usd"@, t) {
                lemma_channel_words();
                lemma_subrange_keeps(t, 0, t.len() - 4);
            }
            lemma_ascii_case_maps(st);
            assert(c@ == channel_shape(ch).1[0]);
            assert(c@ == uppercase_text(st));
        },
        SubscriptionChannel::Unknown(u) => {
            assert(channel_shape(ch).1[0] == u@);
            assert(u@ == s);
        },
        _ => {},
    }
    lemma_plain_fields_round_trip(ch);
}

/// A name that starts with `user.orders`, `user.trades` or `user.portfolio`
/// denotes the user's orders, trades or portfolio channel, whatever pieces
/// follow, and however many.
pub proof fn lemma_user_channels_ignore_the_rest(rest: Seq<Seq<char>>)
    requires
        dot_free(rest),
    ensures
        parse_channel(join_dots(seq!["user"@, "orders"@] + rest)) == (ChannelKind::UserOrders, Seq::<Seq<char>>::empty()),
        parse_channel(join_dots(seq!["user"@, "trades"@] + rest)) == (ChannelKind::UserTrades, Seq::<Seq<char>>::empty()),
        parse_channel(join_dots(seq!["user"@, "portfolio"@] + rest)) == (ChannelKind::UserPortfolio, Seq::<Seq<char>>::empty()),
{
    lemma_channel_words();
    lemma_channel_words_dot_free();
    let po = seq!["user"@, "orders"@] + rest;
    let pt = seq!["user"@, "trades"@] + rest;
    let pp = seq!["user"@, "portfolio"@] + rest;
    assert(dot_free(po)) by {
        assert forall|i: int| 0 <= i < po.len() implies !has_char(#[trigger] po[i], '.') by {
            if i >= 2 {
                assert(po[i] == rest[i - 2]);
            }
        }
    }
    assert(dot_free(pt)) by {
        assert forall|i: int| 0 <= i < pt.len() implies !has_char(#[trigger] pt[i], '.') by {
            if i >= 2 {
                assert(pt[i] == rest[i - 2]);
            }
        }
    }
    assert(dot_free(pp)) by {
        assert forall|i: int| 0 <= i < pp.len() implies !has_char(#[trigger] pp[i], '.') by {
            if i >= 2 {
                assert(pp[i] == rest[i - 2]);
            }
        }
    }
    lemma_split_join(po);
    lemma_split_join(pt);
    lemma_split_join(pp);
    assert(po[0] == "user"@ && po[1] == "orders"@);
    assert(pt[0] == "user"@ && pt[1] == "trades"@);
    assert(pp[0] == "user"@ && pp[1] == "portfolio"@);
    assert(channel_of_parts(po, join_dots(po)).1 =~= Seq::<Seq<char>>::empty());
    assert(channel_of_parts(pt, join_dots(pt)).1 =~= Seq::<Seq<char>>::empty());
    assert(channel_of_parts(pp, join_dots(pp)).1 =~= Seq::<Seq<char>>::empty());
}

/// The longer forms of ticker, book and trades names denote the same
/// channel as the short form: `ticker.<i>.<interval>` is the ticker of `i`,
/// `book.<i>.<depth>.<interval>` the order book of `i`, and
/// `trades.<i>.<interval>` the trades of `i`, whatever the trailing pieces.
pub proof fn lemma_longer_channel_forms(i: Seq<char>, x: Seq<char>, y: Seq<char>)
    requires
        !has_char(i, '.'),
        !has_char(x, '.'),
        !has_char(y, '.'),
    ensures
        parse_channel(join_dots(seq!["ticker"@, i, x])) == (ChannelKind::Ticker, seq![i]),
        parse_channel(join_dots(seq!["book"@, i, x, y])) == (ChannelKind::OrderBook, seq![i]),
        parse_channel(join_dots(seq!["trades"@, i, x])) == (ChannelKind::Trades, seq![i]),
{
    lemma_channel_words();
    lemma_channel_words_dot_free();
    let pt = seq!["ticker"@, i, x];
    let pb = seq!["book"@, i, x, y];
    let pr = seq!["trades"@, i, x];
    assert(dot_free(pt));
    assert(dot_free(pb));
    assert(dot_free(pr));
    lemma_split_join(pt);
    lemma_split_join(pb);
    lemma_split_join(pr);
    assert(channel_of_parts(pt, join_dots(pt)).1 =~= seq![i]);
    assert(channel_of_parts(pb, join_dots(pb)).1 =~= seq![i]);
    assert(channel_of_parts(pr, join_dots(pr)).1 =~= seq![i]);
}

/// Lengths and distinguishing characters of the words that channel names
/// are built from.
pub(crate) proof fn lemma_channel_words()
    ensures
        "ticker"@.len() == 6,
        "ticker"@[0] == 't',
        "ticker"@[1] == 'i',
        "book"@.len() == 4,
        "book"@[0] == 'b',
        "book"@[1] == 'o',
        "raw"@.len() == 3,
        "raw"@[0] == 'r',
        "raw"@[1] == 'a',
        "trades"@.len() == 6,
        "trades"@[0] == 't',
        "trades"@[1] == 'r',
        "chart"@.len() == 5,
        "chart"@[0] == 'c',
        "chart"@[1] == 'h',
        "user"@.len() == 4,
        "user"@[0] == 'u',
        "user"@[1] == 's',
        "orders"@.len() == 6,
        "orders"@[0] == 'o',
        "orders"@[1] == 'r',
        "any"@.len() == 3,
        "any"@[0] == 'a',
        "any"@[1] == 'n',
        "portfolio"@.len() == 9,
        "portfolio"@[0] == 'p',
        "portfolio"@[1] == 'o',
        "portfolio"@[8] == 'o',
        "changes"@.len() == 7,
        "changes"@[0] == 'c',
        "changes"@[1] == 'h',
        "deribit_price_index"@.len() == 19,
        "deribit_price_index"@[0] == 'd',
        "deribit_price_index"@[1] == 'e',
        "deribit_price_index"@[8] == 'p',
        "_usd"@.len() == 4,
        "_usd"@[0] == '_',
        "_usd"@[1] == 'u',
        "estimated_expiration_price"@.len() == 26,
        "estimated_expiration_price"@[0] == 'e',
        "estimated_expiration_price"@[1] == 's',
        "estimated_expiration_price"@[8] == 'd',
        "markprice"@.len() == 9,
        "markprice"@[0] == 'm',
        "markprice"@[1] == 'a',
        "markprice"@[8] == 'e',
        "options"@.len() == 7,
        "options"@[0] == 'o',
        "options"@[1] == 'p',
        "perpetual"@.len() == 9,
        "perpetual"@[0] == 'p',
        "perpetual"@[1] == 'e',
        "perpetual"@[8] == 'l',
        "quote"@.len() == 5,
        "quote"@[0] == 'q',
        "quote"@[1] == 'u',
        "platform_state"@.len() == 14,
        "platform_state"@[0] == 'p',
        "platform_state"@[1] == 'l',
        "platform_state"@[8] == '_',
        "public_methods_state"@.len() == 20,
        "public_methods_state"@[0] == 'p',
        "public_methods_state"@[1] == 'u',
        "public_methods_state"@[8] == 'e',
        "instrument"@.len() == 10,
        "instrument"@[0] == 'i',
        "instrument"@[1] == 'n',
        "instrument"@[8] == 'n',
        "state"@.len() == 5,
        "state"@[0] == 's',
        "state"@[1] == 't',
        "incremental_ticker"@.len() == 18,
        "incremental_ticker"@[0] == 'i',
        "incremental_ticker"@[1] == 'n',
        "incremental_ticker"@[8] == 't',
        "deribit_price_ranking"@.len() == 21,
        "deribit_price_ranking"@[0] == 'd',
        "deribit_price_ranking"@[1] == 'e',
        "deribit_price_ranking"@[8] == 'p',
        "deribit_price_statistics"@.len() == 24,
        "deribit_price_statistics"@[0] == 'd',
        "deribit_price_statistics"@[1] == 'e',
        "deribit_price_statistics"@[8] == 'p',
        "deribit_volatility_index"@.len() == 24,
        "deribit_volatility_index"@[0] == 'd',
        "deribit_volatility_index"@[1] == 'e',
        "deribit_volatility_index"@[8] == 'v',
        "block_rfq"@.len() == 9,
        "block_rfq"@[0] == 'b',
        "block_rfq"@[1] == 'l',
        "block_rfq"@[8] == 'q',
        "block_trade_confirmations"@.len() == 25,
        "block_trade_confirmations"@[0] == 'b',
        "block_trade_confirmations"@[1] == 'l',
        "block_trade_confirmations"@[8] == 'a',
{
    reveal_strlit("ticker");
    reveal_strlit("book");
    reveal_strlit("raw");
    reveal_strlit("trades");
    reveal_strlit("chart");
    reveal_strlit("user");
    reveal_strlit("orders");
    reveal_strlit("any");
    reveal_strlit("portfolio");
    reveal_strlit("changes");
    reveal_strlit("deribit_price_index");
    reveal_strlit("_usd");
    reveal_strlit("estimated_expiration_price");
    reveal_strlit("markprice");
    reveal_strlit("options");
    reveal_strlit("perpetual");
    reveal_strlit("quote");
    reveal_strlit("platform_state");
    reveal_strlit("public_methods_state");
    reveal_strlit("instrument");
    reveal_strlit("state");
    reveal_strlit("incremental_ticker");
    reveal_strlit("deribit_price_ranking");
    reveal_strlit("deribit_price_statistics");
    reveal_strlit("deribit_volatility_index");
    reveal_strlit("block_rfq");
    reveal_strlit("block_trade_confirmations");
}

/// No word that channel names are built from holds a `.`.
pub(crate) proof fn lemma_channel_words_dot_free()
    ensures
        !has_char("_usd"@, '.'),
        !has_char("any"@, '.'),
        !has_char("block_rfq"@, '.'),
        !has_char("block_trade_confirmations"@, '.'),
        !has_char("book"@, '.'),
        !has_char("changes"@, '.'),
        !has_char("chart"@, '.'),
        !has_char("deribit_price_index"@, '.'),
        !has_char("deribit_price_ranking"@, '.'),
        !has_char("deribit_price_statistics"@, '.'),
        !has_char("deribit_volatility_index"@, '.'),
        !has_char("estimated_expiration_price"@, '.'),
        !has_char("incremental_ticker"@, '.'),
        !has_char("instrument"@, '.'),
        !has_char("markprice"@, '.'),
        !has_char("options"@, '.'),
        !has_char("orders"@, '.'),
        !has_char("perpetual"@, '.'),
        !has_char("platform_state"@, '.'),
        !has_char("portfolio"@, '.'),
        !has_char("public_methods_state"@, '.'),
        !has_char("quote"@, '.'),
        !has_char("raw"@, '.'),
        !has_char("state"@, '.'),
        !has_char("ticker"@, '.'),
        !has_char("trades"@, '.'),
        !has_char("user"@, '.'),
{
    reveal_strlit("_usd");
    assert(!has_char("_usd"@, '.'));
    reveal_strlit("any");
    assert(!has_char("any"@, '.'));
    reveal_strlit("block_rfq");
    assert(!has_char("block_rfq"@, '.'));
    reveal_strlit("block_trade_confirmations");
    assert(!has_char("block_trade_confirmations"@, '.'));
    reveal_strlit("book");
    assert(!has_char("book"@, '.'));
    reveal_strlit("changes");
    assert(!has_char("changes"@, '.'));
    reveal_strlit("chart");
    assert(!has_char("chart"@, '.'));
    reveal_strlit("deribit_price_index");
    assert(!has_char("deribit_price_index"@, '.'));
    reveal_strlit("deribit_price_ranking");
    assert(!has_char("deribit_price_ranking"@, '.'));
    reveal_strlit("deribit_price_statistics");
    assert(!has_char("deribit_price_statistics"@, '.'));
    reveal_strlit("deribit_volatility_index");
    assert(!has_char("deribit_volatility_index"@, '.'));
    reveal_strlit("estimated_expiration_price");
    assert(!has_char("estimated_expiration_price"@, '.'));
    reveal_strlit("incremental_ticker");
    assert(!has_char("incremental_ticker"@, '.'));
    reveal_strlit("instrument");
    assert(!has_char("instrument"@, '.'));
    reveal_strlit("markprice");
    assert(!has_char("markprice"@, '.'));
    reveal_strlit("options");
    assert(!has_char("options"@, '.'));
    reveal_strlit("orders");
    assert(!has_char("orders"@, '.'));
    reveal_strlit("perpetual");
    assert(!has_char("perpetual"@, '.'));
    reveal_strlit("platform_state");
    assert(!has_char("platform_state"@, '.'));
    reveal_strlit("portfolio");
    assert(!has_char("portfolio"@, '.'));
    reveal_strlit("public_methods_state");
    assert(!has_char("public_methods_state"@, '.'));
    reveal_strlit("quote");
    assert(!has_char("quote"@, '.'));
    reveal_strlit("raw");
    assert(!has_char("raw"@, '.'));
    reveal_strlit("state");
    assert(!has_char("state"@, '.'));
    reveal_strlit("ticker");
    assert(!has_char("ticker"@, '.'));
    reveal_strlit("trades");
    assert(!has_char("trades"@, '.'));
    reveal_strlit("user");
    assert(!has_char("user"@, '.'));
}

pub(crate) fn join2(a: &str, b: &str) -> (r: String)
    ensures
        r@ == join_dots(seq![a@, b@]),
{
    let v = vec![a, b];
    assert(v@.map_values(|p: &str| p@) =~= seq![a@, b@]);
    join_dotted(&v)
}

pub(crate) fn join3(a: &str, b: &str, c: &str) -> (r: String)
    ensures
        r@ == join_dots(seq![a@, b@, c@]),
{
    let v = vec![a, b, c];
    assert(v@.map_values(|p: &str| p@) =~= seq![a@, b@, c@]);
    join_dotted(&v)
}

pub(crate) fn join4(a: &str, b: &str, c: &str, d: &str) -> (r: String)
    ensures
        r@ == join_dots(seq![a@, b@, c@, d@]),
{
    let v = vec![a, b, c, d];
    assert(v@.map_values(|p: &str| p@) =~= seq![a@, b@, c@, d@]);
    join_dotted(&v)
}

pub(crate) fn join5(a: &str, b: &str, c: &str, d: &str, e: &str) -> (r: String)
    ensures
        r@ == join_dots(seq![a@, b@, c@, d@, e@]),
{
    let v = vec![a, b, c, d, e];
    assert(v@.map_values(|p: &str| p@) =~= seq![a@, b@, c@, d@, e@]);
    join_dotted(&v)
}

pub(crate) fn join1(a: &str) -> (r: String)
    ensures
        r@ == join_dots(seq![a@]),
{
    let v = vec![a];
    assert(v@.map_values(|p: &str| p@) =~= seq![a@]);
    join_dotted(&v)
}

/// `parts[k]` holds exactly the text `lit`.
fn part_is(parts: &Vec<String>, k: usize, lit: &str) -> (r: bool)
    requires
        k < parts@.len(),
    ensures
        r == (parts@[k as int]@ == lit@),
{
    same_text(parts[k].as_str(), lit)
}

/// The currency pair `p` without a trailing `_usd`, when it has one.
fn strip_usd_suffix(p: &str) -> (r: String)
    ensures
        r@ == strip_usd(p@),
{
    proof {
        reveal_strlit("_usd");
    }
    let n = p.unicode_len();
    if n >= 4 {
        let tail = p.substring_char(n - 4, n);
        if same_text(tail, "_usd") {
            let head = p.substring_char(0, n - 4);
            let mut r = String::new();
            r.append(head);
            return r;
        }
    }
    let mut r = String::new();
    r.append(p);
    r
}

impl SubscriptionChannel {
    /// Convert subscription channel to channel name.
    pub fn channel_name(&self) -> (r: String)
        ensures
            r@ == channel_name_of(*self),
    {
        match self {
            SubscriptionChannel::Ticker(i) => join2("ticker", i.as_str()),
            SubscriptionChannel::OrderBook(i) => join3("book", i.as_str(), "raw"),
            SubscriptionChannel::Trades(i) => join3("trades", i.as_str(), "raw"),
            SubscriptionChannel::ChartTrades { instrument, resolution } => join4(
                "chart",
                "trades",
                instrument.as_str(),
                resolution.as_str(),
            ),
            SubscriptionChannel::UserOrders => join5("user", "orders", "any", "any", "raw"),
            SubscriptionChannel::UserTrades => join5("user", "trades", "any", "any", "raw"),
            SubscriptionChannel::UserPortfolio => join3("user", "portfolio", "any"),
            SubscriptionChannel::UserChanges { instrument, interval } => join4(
                "user",
                "changes",
                instrument.as_str(),
                interval.as_str(),
            ),
            SubscriptionChannel::PriceIndex(currency) => {
                let mut pair = to_lowercase(currency.as_str());
                pair.append("_usd");
                join2("deribit_price_index", pair.as_str())
            },
            SubscriptionChannel::EstimatedExpirationPrice(i) => join2(
                "estimated_expiration_price",
                i.as_str(),
            ),
            SubscriptionChannel::MarkPrice(i) => join3("markprice", "options", i.as_str()),
            SubscriptionChannel::Funding(i) => join3("perpetual", i.as_str(), "raw"),
            SubscriptionChannel::Perpetual { instrument, interval } => join3(
                "perpetual",
                instrument.as_str(),
                interval.as_str(),
            ),
            SubscriptionChannel::Quote(i) => join2("quote", i.as_str()),
            SubscriptionChannel::PlatformState => join1("platform_state"),
            SubscriptionChannel::PlatformStatePublicMethods => join2(
                "platform_state",
                "public_methods_state",
            ),
            SubscriptionChannel::InstrumentState { kind, currency } => join4(
                "instrument",
                "state",
                kind.as_str(),
                currency.as_str(),
            ),
            SubscriptionChannel::GroupedOrderBook { instrument, group, depth, interval } => join5(
                "book",
                instrument.as_str(),
                group.as_str(),
                depth.as_str(),
                interval.as_str(),
            ),
            SubscriptionChannel::IncrementalTicker(i) => join2("incremental_ticker", i.as_str()),
            SubscriptionChannel::TradesByKind { kind, currency, interval } => join4(
                "trades",
                kind.as_str(),
                currency.as_str(),
                interval.as_str(),
            ),
            SubscriptionChannel::PriceRanking(n) => join2("deribit_price_ranking", n.as_str()),
            SubscriptionChannel::PriceStatistics(n) => join2(
                "deribit_price_statistics",
                n.as_str(),
            ),
            SubscriptionChannel::VolatilityIndex(n) => join2(
                "deribit_volatility_index",
                n.as_str(),
            ),
            SubscriptionChannel::BlockRfqTrades(c) => join3("block_rfq", "trades", c.as_str()),
            SubscriptionChannel::BlockTradeConfirmations => join1("block_trade_confirmations"),
            SubscriptionChannel::BlockTradeConfirmationsByCurrency(c) => join2(
                "block_trade_confirmations",
                c.as_str(),
            ),
            SubscriptionChannel::Unknown(channel) => join1(channel.as_str()),
        }
    }

    /// Parse subscription channel from string.
    ///
    /// Returns the variant for recognized channel patterns, or
    /// `Unknown(s)` for unrecognized ones.
    #[verifier::rlimit(50)]
    pub fn from_string(s: &str) -> (r: Self)
        ensures
            channel_shape(r) == parse_channel(s@),
    {
        let parts = split(s, '.');
        let ghost p = parts@.map_values(|x: String| x@);
        proof {
            lemma_split_nonempty(s@, '.');
        }
        assert(forall|k: int| 0 <= k < parts@.len() ==> #[trigger] p[k] == parts@[k]@);
        let n = parts.len();
        if n == 2 && part_is(&parts, 0, "ticker") {
            SubscriptionChannel::Ticker(parts[1].clone())
        } else if n == 3 && part_is(&parts, 0, "ticker") {
            SubscriptionChannel::Ticker(parts[1].clone())
        } else if n == 3 && part_is(&parts, 0, "book") && part_is(&parts, 2, "raw") {
            SubscriptionChannel::OrderBook(parts[1].clone())
        } else if n == 5 && part_is(&parts, 0, "book") {
            SubscriptionChannel::GroupedOrderBook {
                instrument: parts[1].clone(),
                group: parts[2].clone(),
                depth: parts[3].clone(),
                interval: parts[4].clone(),
            }
        } else if n == 4 && part_is(&parts, 0, "book") {
            SubscriptionChannel::OrderBook(parts[1].clone())
        } else if n == 2 && part_is(&parts, 0, "incremental_ticker") {
            SubscriptionChannel::IncrementalTicker(parts[1].clone())
        } else if n == 3 && part_is(&parts, 0, "trades") && part_is(&parts, 2, "raw") {
            SubscriptionChannel::Trades(parts[1].clone())
        } else if n == 4 && part_is(&parts, 0, "trades") && !Self::looks_like_instrument(
            parts[1].as_str(),
        ) {
            SubscriptionChannel::TradesByKind {
                kind: parts[1].clone(),
                currency: parts[2].clone(),
                interval: parts[3].clone(),
            }
        } else if n == 3 && part_is(&parts, 0, "trades") {
            SubscriptionChannel::Trades(parts[1].clone())
        } else if n == 4 && part_is(&parts, 0, "chart") && part_is(&parts, 1, "trades") {
            SubscriptionChannel::ChartTrades {
                instrument: parts[2].clone(),
                resolution: parts[3].clone(),
            }
        } else if n >= 2 && part_is(&parts, 0, "user") && part_is(&parts, 1, "orders") {
            SubscriptionChannel::UserOrders
        } else if n >= 2 && part_is(&parts, 0, "user") && part_is(&parts, 1, "trades") {
            SubscriptionChannel::UserTrades
        } else if n >= 2 && part_is(&parts, 0, "user") && part_is(&parts, 1, "portfolio") {
            SubscriptionChannel::UserPortfolio
        } else if n == 4 && part_is(&parts, 0, "user") && part_is(&parts, 1, "changes") {
            SubscriptionChannel::UserChanges {
                instrument: parts[2].clone(),
                interval: parts[3].clone(),
            }
        } else if n == 2 && part_is(&parts, 0, "deribit_price_index") {
            let stripped = strip_usd_suffix(parts[1].as_str());
            SubscriptionChannel::PriceIndex(to_uppercase(stripped.as_str()))
        } else if n == 2 && part_is(&parts, 0, "estimated_expiration_price") {
            SubscriptionChannel::EstimatedExpirationPrice(parts[1].clone())
        } else if n == 3 && part_is(&parts, 0, "markprice") && part_is(&parts, 1, "options") {
            SubscriptionChannel::MarkPrice(parts[2].clone())
        } else if n == 3 && part_is(&parts, 0, "perpetual") {
            SubscriptionChannel::Perpetual {
                instrument: parts[1].clone(),
                interval: parts[2].clone(),
            }
        } else if n == 2 && part_is(&parts, 0, "quote") {
            SubscriptionChannel::Quote(parts[1].clone())
        } else if n == 1 && part_is(&parts, 0, "platform_state") {
            SubscriptionChannel::PlatformState
        } else if n == 2 && part_is(&parts, 0, "platform_state") && part_is(
            &parts,
            1,
            "public_methods_state",
        ) {
            SubscriptionChannel::PlatformStatePublicMethods
        } else if n == 4 && part_is(&parts, 0, "instrument") && part_is(&parts, 1, "state") {
            SubscriptionChannel::InstrumentState {
                kind: parts[2].clone(),
                currency: parts[3].clone(),
            }
        } else if n == 2 && part_is(&parts, 0, "deribit_price_ranking") {
            SubscriptionChannel::PriceRanking(parts[1].clone())
        } else if n == 2 && part_is(&parts, 0, "deribit_price_statistics") {
            SubscriptionChannel::PriceStatistics(parts[1].clone())
        } else if n == 2 && part_is(&parts, 0, "deribit_volatility_index") {
            SubscriptionChannel::VolatilityIndex(parts[1].clone())
        } else if n == 3 && part_is(&parts, 0, "block_rfq") && part_is(&parts, 1, "trades") {
            SubscriptionChannel::BlockRfqTrades(parts[2].clone())
        } else if n == 1 && part_is(&parts, 0, "block_trade_confirmations") {
            SubscriptionChannel::BlockTradeConfirmations
        } else if n == 2 && part_is(&parts, 0, "block_trade_confirmations") {
            SubscriptionChannel::BlockTradeConfirmationsByCurrency(parts[1].clone())
        } else {
            let mut whole = String::new();
            whole.append(s);
            SubscriptionChannel::Unknown(whole)
        }
    }

    /// Check if this channel is unknown/unrecognized.
    pub fn is_unknown(&self) -> (r: bool)
        ensures
            r == (*self is Unknown),
    {
        matches!(self, SubscriptionChannel::Unknown(_))
    }

    /// Check if a string looks like an instrument name (contains a hyphen).
    ///
    /// Used to distinguish between `trades.{instrument}.{interval}` and
    /// `trades.{kind}.{currency}.{interval}` patterns.
    pub fn looks_like_instrument(s: &str) -> (r: bool)
        ensures
            r == has_char(s@, '-'),
    {
        contains_char(s, '-')
    }
}

} // verus!

verus! {

/// JSON-RPC 2.0 request structure.
#[derive(Debug, PartialEq)]
pub struct JsonRpcRequest {
    /// JSON-RPC version (always "2.0")
    pub jsonrpc: String,
    /// Request identifier for correlation with response
    pub id: JsonValue,
    /// Method name to call
    pub method: String,
    /// Optional parameters for the method
    pub params: Option<JsonValue>,
}

/// JSON-RPC 2.0 result or error union.
#[derive(Debug, PartialEq)]
pub enum JsonRpcResult {
    /// Successful result
    Success {
        /// Result data
        result: JsonValue,
    },
    /// Error result
    Error {
        /// Error information
        error: JsonRpcError,
    },
}

/// JSON-RPC 2.0 response structure.
#[derive(Debug, PartialEq)]
pub struct JsonRpcResponse {
    /// JSON-RPC version (always "2.0")
    pub jsonrpc: String,
    /// Request identifier for correlation
    pub id: JsonValue,
    /// Result or error information
    pub result: JsonRpcResult,
}

/// JSON-RPC 2.0 error structure.
#[derive(Debug, PartialEq)]
pub struct JsonRpcError {
    /// Error code
    pub code: i32,
    /// Error message
    pub message: String,
    /// Optional additional error data
    pub data: Option<JsonValue>,
}

/// JSON-RPC 2.0 notification structure (no response expected).
#[derive(Debug, PartialEq)]
pub struct JsonRpcNotification {
    /// JSON-RPC version (always "2.0")
    pub jsonrpc: String,
    /// Method name
    pub method: String,
    /// Optional parameters
    pub params: Option<JsonValue>,
}

/// WebSocket message types for JSON-RPC communication.
#[derive(Debug, PartialEq)]
pub enum WebSocketMessage {
    /// JSON-RPC request message
    Request(JsonRpcRequest),
    /// JSON-RPC response message
    Response(JsonRpcResponse),
    /// JSON-RPC notification message (no response expected)
    Notification(JsonRpcNotification),
}

/// WebSocket request structure for Deribit API.
#[derive(Debug, PartialEq)]
pub struct WsRequest {
    /// JSON-RPC version
    pub jsonrpc: String,
    /// Request ID for correlation with responses
    pub id: JsonValue,
    /// API method name to call
    pub method: String,
    /// Parameters for the API method
    pub params: Option<JsonValue>,
}

/// WebSocket response structure for Deribit API.
#[derive(Debug, PartialEq)]
pub struct WsResponse {
    /// JSON-RPC version
    pub jsonrpc: String,
    /// Request ID for correlation (None for notifications)
    pub id: Option<JsonValue>,
    /// Result data if the request was successful
    pub result: Option<JsonValue>,
    /// Error information if the request failed
    pub error: Option<JsonRpcError>,
}

impl JsonRpcRequest {
    /// Create a new JSON-RPC request.
    pub fn new(id: JsonValue, method: &str, params: Option<JsonValue>) -> (r: Self)
        ensures
            r.jsonrpc@ == "2.0"@,
            r.id == id,
            r.method@ == method@,
            r.params == params,
    {
        JsonRpcRequest { jsonrpc: owned("2.0"), id, method: owned(method), params }
    }
}

impl JsonRpcResponse {
    /// Create a new successful JSON-RPC response.
    pub fn success(id: JsonValue, result: JsonValue) -> (r: Self)
        ensures
            r.jsonrpc@ == "2.0"@,
            r.id == id,
            r.result == (JsonRpcResult::Success { result }),
    {
        JsonRpcResponse { jsonrpc: owned("2.0"), id, result: JsonRpcResult::Success { result } }
    }

    /// Create a new error JSON-RPC response.
    pub fn error(id: JsonValue, error: JsonRpcError) -> (r: Self)
        ensures
            r.jsonrpc@ == "2.0"@,
            r.id == id,
            r.result == (JsonRpcResult::Error { error }),
    {
        JsonRpcResponse { jsonrpc: owned("2.0"), id, result: JsonRpcResult::Error { error } }
    }
}

impl JsonRpcNotification {
    /// Create a new JSON-RPC notification.
    pub fn new(method: &str, params: Option<JsonValue>) -> (r: Self)
        ensures
            r.jsonrpc@ == "2.0"@,
            r.method@ == method@,
            r.params == params,
    {
        JsonRpcNotification { jsonrpc: owned("2.0"), method: owned(method), params }
    }
}

/// WebSocket connection state.
#[derive(Debug, Clone, Copy, PartialEq, Eq, Hash, Structural)]
pub enum ConnectionState {
    /// Not connected
    Disconnected,
    /// Attempting to connect
    Connecting,
    /// Connected but not authenticated
    Connected,
    /// Connected and authenticated
    Authenticated,
    /// Attempting to reconnect
    Reconnecting,
    /// Connection failed
    Failed,
}

impl ConnectionState {
    /// Check if the connection is in a connected state.
    pub fn is_connected(&self) -> (r: bool)
        ensures
            r == (*self == ConnectionState::Connected || *self == ConnectionState::Authenticated),
    {
        matches!(self, ConnectionState::Connected | ConnectionState::Authenticated)
    }

    /// Check if the connection is authenticated.
    pub fn is_authenticated(&self) -> (r: bool)
        ensures
            r == (*self == ConnectionState::Authenticated),
    {
        matches!(self, ConnectionState::Authenticated)
    }

    /// Check if the connection is in a transitional state.
    pub fn is_transitional(&self) -> (r: bool)
        ensures
            r == (*self == ConnectionState::Connecting || *self == ConnectionState::Reconnecting),
    {
        matches!(self, ConnectionState::Connecting | ConnectionState::Reconnecting)
    }
}

/// The clock reading type of the standard library.
#[verifier::external_type_specification]
#[verifier::external_body]
pub struct ExInstant(std::time::Instant);

/// Wraps `Instant::now`: the current reading of the monotonic clock. Nothing
/// is stated of the value, which depends on when the call is made.
#[verifier::external_body]
fn instant_now() -> std::time::Instant {
    std::time::Instant::now()
}

/// Heartbeat monitoring status.
#[derive(Debug, Clone)]
pub struct HeartbeatStatus {
    /// Last ping sent timestamp
    pub last_ping: Option<std::time::Instant>,
    /// Last pong received timestamp
    pub last_pong: Option<std::time::Instant>,
    /// Number of consecutive missed pongs
    pub missed_pongs: u32,
}

impl HeartbeatStatus {
    /// Create a new heartbeat status.
    pub fn new() -> (r: Self)
        ensures
            r.last_ping is None,
            r.last_pong is None,
            r.missed_pongs == 0,
    {
        HeartbeatStatus { last_ping: None, last_pong: None, missed_pongs: 0 }
    }

    /// Record a ping sent.
    pub fn ping_sent(&mut self)
        ensures
            final(self).last_ping is Some,
            final(self).last_pong == old(self).last_pong,
            final(self).missed_pongs == old(self).missed_pongs,
    {
        self.last_ping = Some(instant_now());
    }

    /// Record a pong received.
    pub fn pong_received(&mut self)
        ensures
            final(self).last_pong is Some,
            final(self).last_ping == old(self).last_ping,
            final(self).missed_pongs == 0,
    {
        self.last_pong = Some(instant_now());
        self.missed_pongs = 0;
    }

    /// Record a missed pong.
    pub fn missed_pong(&mut self)
        requires
            old(self).missed_pongs < u32::MAX,
        ensures
            final(self).missed_pongs == old(self).missed_pongs + 1,
            final(self).last_ping == old(self).last_ping,
            final(self).last_pong == old(self).last_pong,
    {
        self.missed_pongs = self.missed_pongs + 1;
    }

    /// Check if connection is considered stale.
    pub fn is_stale(&self, max_missed_pongs: u32) -> (r: bool)
        ensures
            r == (self.missed_pongs >= max_missed_pongs),
    {
        self.missed_pongs >= max_missed_pongs
    }

    /// The status after `n` further calls of `missed_pong`, as that method's
    /// contract describes each call.
    pub open spec fn after_missed_pongs(self, n: nat) -> HeartbeatStatus
        decreases n,
    {
        if n == 0 {
            self
        } else {
            let p = self.after_missed_pongs((n - 1) as nat);
            HeartbeatStatus { missed_pongs: (p.missed_pongs + 1) as u32, ..p }
        }
    }

    /// A status that starts with no missed pongs and then misses `n` pongs in a
    /// row (with no pong received between) is stale for a threshold `m` exactly
    /// when `n >= m`: staleness only grows with missed pongs, and every status
    /// is stale for a threshold of zero.
    pub proof fn lemma_stale_after_missed_pongs(self, n: nat, m: u32)
        requires
            self.missed_pongs == 0,
            n <= u32::MAX,
        ensures
            self.after_missed_pongs(n).missed_pongs == n,
            (self.after_missed_pongs(n).missed_pongs >= m) == (n >= m),
        decreases n,
    {
        if n > 0 {
            self.lemma_stale_after_missed_pongs((n - 1) as nat, m);
        }
    }
}

impl Default for HeartbeatStatus {
    fn default() -> (r: Self)
        ensures
            r.last_ping is None,
            r.last_pong is None,
            r.missed_pongs == 0,
    {
        Self::new()
    }
}

} // verus!

verus! {

/// A copy of a JSON-RPC error object.
pub fn copy_rpc_error(e: &JsonRpcError) -> (r: JsonRpcError)
    ensures
        r.code == e.code,
        r.message@ == e.message@,
        match e.data {
            Some(d) => r.data matches Some(c) && crate::json::json_eq(d, c),
            None => r.data is None,
        },
{
    let data = match &e.data {
        Some(d) => Some(d.deep_clone()),
        None => None,
    };
    JsonRpcError { code: e.code, message: e.message.clone(), data }
}

} // verus!
