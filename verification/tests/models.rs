use deribit_websocket::model::account::Direction;
use deribit_websocket::model::quote::{
    instrument_currency, mmp_group_currency, mmp_quantity_cap, validate_quotes, MassQuoteIssue,
    QuoteSlot, MAX_MASS_QUOTES,
};
use deribit_websocket::model::subscription::SubscriptionManager;
use deribit_websocket::model::trading::{OrderType, TimeInForce};
use deribit_websocket::model::ws_types::{ConnectionState, HeartbeatStatus, SubscriptionChannel};
use deribit_websocket::subscriptions::SubscriptionChannel as BasicChannel;

fn slot(instrument: &str, side: &str) -> QuoteSlot {
    QuoteSlot {
        instrument_name: instrument.to_string(),
        side: side.to_string(),
    }
}

#[test]
fn test_direction_as_str() {
    assert_eq!(Direction::Buy.as_str(), "buy");
    assert_eq!(Direction::Sell.as_str(), "sell");
    assert_eq!(Direction::Zero.as_str(), "zero");
}

#[test]
fn test_order_type_as_str() {
    assert_eq!(OrderType::Limit.as_str(), "limit");
    assert_eq!(OrderType::Market.as_str(), "market");
    assert_eq!(OrderType::StopLimit.as_str(), "stop_limit");
    assert_eq!(OrderType::TrailingStop.as_str(), "trailing_stop");
}

#[test]
fn test_time_in_force_as_str() {
    assert_eq!(TimeInForce::GoodTilCancelled.as_str(), "good_til_cancelled");
    assert_eq!(TimeInForce::FillOrKill.as_str(), "fill_or_kill");
    assert_eq!(TimeInForce::ImmediateOrCancel.as_str(), "immediate_or_cancel");
}

#[test]
fn remaining_wire_names() {
    assert_eq!(OrderType::StopMarket.as_str(), "stop_market");
    assert_eq!(OrderType::TakeLimit.as_str(), "take_limit");
    assert_eq!(OrderType::TakeMarket.as_str(), "take_market");
    assert_eq!(OrderType::MarketLimit.as_str(), "market_limit");
    assert_eq!(TimeInForce::GoodTilDay.as_str(), "good_til_day");
}

#[test]
fn test_mass_quote_validation() {
    let quotes = vec![slot("BTC-PERPETUAL", "buy"), slot("BTC-PERPETUAL", "sell")];
    assert!(validate_quotes(&quotes).is_ok());
}

#[test]
fn test_mass_quote_validation_different_currencies() {
    let quotes = vec![slot("BTC-PERPETUAL", "buy"), slot("ETH-PERPETUAL", "sell")];
    assert_eq!(validate_quotes(&quotes), Err(MassQuoteIssue::MixedCurrencies));
}

#[test]
fn test_mass_quote_validation_duplicate_quotes() {
    // Two buy quotes on one instrument (at different prices and amounts).
    let quotes = vec![slot("BTC-PERPETUAL", "buy"), slot("BTC-PERPETUAL", "buy")];
    assert!(validate_quotes(&quotes).is_err());
    assert_eq!(validate_quotes(&quotes), Err(MassQuoteIssue::DuplicateQuote(1)));
}

#[test]
fn mass_quote_size_limits() {
    assert_eq!(validate_quotes(&vec![]), Err(MassQuoteIssue::NoQuotes));
    let many: Vec<QuoteSlot> = (0..=MAX_MASS_QUOTES).map(|i| slot(&format!("BTC-{i}"), "buy")).collect();
    assert_eq!(validate_quotes(&many), Err(MassQuoteIssue::TooManyQuotes));
    let exactly: Vec<QuoteSlot> = (0..MAX_MASS_QUOTES).map(|i| slot(&format!("BTC-{i}"), "buy")).collect();
    assert_eq!(validate_quotes(&exactly), Ok(()));
}

#[test]
fn mass_quote_reports_first_repeat_and_currency_before_duplicates() {
    let quotes = vec![
        slot("BTC-1", "buy"),
        slot("BTC-2", "buy"),
        slot("BTC-2", "sell"),
        slot("BTC-2", "buy"),
        slot("BTC-1", "buy"),
    ];
    assert_eq!(validate_quotes(&quotes), Err(MassQuoteIssue::DuplicateQuote(3)));
    let mixed = vec![slot("BTC-1", "buy"), slot("BTC-1", "buy"), slot("ETH-1", "buy")];
    assert_eq!(validate_quotes(&mixed), Err(MassQuoteIssue::MixedCurrencies));
}

#[test]
fn currencies_and_mmp_caps() {
    assert_eq!(instrument_currency("BTC-PERPETUAL"), "BTC");
    assert_eq!(instrument_currency("BTC"), "BTC");
    assert_eq!(instrument_currency("-x"), "");
    assert_eq!(mmp_group_currency("btc_group"), "btc");
    assert_eq!(mmp_quantity_cap("btc_group"), 500);
    assert_eq!(mmp_quantity_cap("eth_group"), 5000);
    assert_eq!(mmp_quantity_cap("ETH"), 5000);
    assert_eq!(mmp_quantity_cap("sol_group"), 500);
    assert_eq!(mmp_quantity_cap(""), 500);
}

#[test]
fn basic_channel_names() {
    assert_eq!(BasicChannel::Ticker("BTC-PERPETUAL".into()).to_string(), "ticker.BTC-PERPETUAL.raw");
    assert_eq!(BasicChannel::OrderBook("ETH-PERPETUAL".into()).to_string(), "book.ETH-PERPETUAL.raw");
    assert_eq!(BasicChannel::Trades("BTC-PERPETUAL".into()).to_string(), "trades.BTC-PERPETUAL.raw");
    assert_eq!(BasicChannel::UserOrders.to_string(), "user.orders.any.any.raw");
    assert_eq!(BasicChannel::UserTrades.to_string(), "user.trades.any.any.raw");
    assert_eq!(BasicChannel::Unknown("custom.x".into()).to_string(), "custom.x");
}

#[test]
fn subscription_manager_lifecycle() {
    let mut m = SubscriptionManager::new();
    m.add_subscription(
        "ticker.BTC-PERPETUAL".to_string(),
        SubscriptionChannel::Ticker("BTC-PERPETUAL".to_string()),
        Some("BTC-PERPETUAL".to_string()),
    );
    m.add_subscription_from_channel(SubscriptionChannel::OrderBook("ETH-PERPETUAL".to_string()));
    assert_eq!(m.get_all_channels().len(), 2);
    let book = m.get_subscription("book.ETH-PERPETUAL.raw").expect("added from channel");
    assert_eq!(book.instrument.as_deref(), Some("ETH-PERPETUAL"));
    assert!(book.active);

    m.deactivate_subscription("ticker.BTC-PERPETUAL");
    assert_eq!(m.get_active_channels(), vec!["book.ETH-PERPETUAL.raw".to_string()]);
    assert_eq!(m.active_subscriptions().len(), 1);

    m.deactivate_all();
    assert!(m.get_active_channels().is_empty());
    assert_eq!(m.get_all_channels().len(), 2);

    m.reactivate_all();
    let mut active = m.get_active_channels();
    active.sort();
    assert_eq!(active, vec!["book.ETH-PERPETUAL.raw".to_string(), "ticker.BTC-PERPETUAL".to_string()]);

    let removed = m.remove_subscription("ticker.BTC-PERPETUAL").expect("was present");
    assert_eq!(removed.channel, "ticker.BTC-PERPETUAL");
    assert!(m.remove_subscription("ticker.BTC-PERPETUAL").is_none());
    assert!(m.get_subscription("ticker.BTC-PERPETUAL").is_none());

    m.clear();
    assert!(m.get_all_channels().is_empty());
}

#[test]
fn adding_a_channel_again_replaces_it() {
    let mut m = SubscriptionManager::new();
    m.add_subscription("ticker.BTC-PERPETUAL".to_string(), SubscriptionChannel::Ticker("BTC-PERPETUAL".to_string()), None);
    m.deactivate_subscription("ticker.BTC-PERPETUAL");
    m.add_subscription(
        "ticker.BTC-PERPETUAL".to_string(),
        SubscriptionChannel::Ticker("BTC-PERPETUAL".to_string()),
        Some("BTC-PERPETUAL".to_string()),
    );
    assert_eq!(m.get_all_channels().len(), 1);
    let sub = m.get_subscription("ticker.BTC-PERPETUAL").expect("present");
    assert!(sub.active);
    assert_eq!(sub.instrument.as_deref(), Some("BTC-PERPETUAL"));
}

#[test]
fn connection_state_predicates() {
    assert!(ConnectionState::Connected.is_connected());
    assert!(ConnectionState::Authenticated.is_connected());
    assert!(!ConnectionState::Disconnected.is_connected());
    assert!(ConnectionState::Authenticated.is_authenticated());
    assert!(!ConnectionState::Connected.is_authenticated());
    assert!(ConnectionState::Connecting.is_transitional());
    assert!(ConnectionState::Reconnecting.is_transitional());
    assert!(!ConnectionState::Failed.is_transitional());
}

#[test]
fn heartbeat_counts_missed_pongs() {
    let mut hb = HeartbeatStatus::new();
    assert!(!hb.is_stale(2));
    hb.ping_sent();
    hb.missed_pong();
    assert!(!hb.is_stale(2));
    hb.missed_pong();
    assert!(hb.is_stale(2));
    assert!(!hb.is_stale(3));
    hb.pong_received();
    assert!(!hb.is_stale(1));
    assert!(hb.is_stale(0));
}

#[test]
fn every_listed_channel_is_stored_under_its_own_name() {
    let mut m = SubscriptionManager::new();
    m.add_subscription_from_channel(SubscriptionChannel::Ticker("BTC-PERPETUAL".to_string()));
    m.add_subscription_from_channel(SubscriptionChannel::UserOrders);
    m.add_subscription_from_channel(SubscriptionChannel::PriceIndex("ETH".to_string()));
    m.remove_subscription("user.orders.any.any.raw");
    let channels = m.get_all_channels();
    assert_eq!(channels.len(), 2);
    for c in &channels {
        assert_eq!(&m.get_subscription(c).expect("listed").channel, c);
    }
}

#[test]
fn staleness_follows_the_count_of_missed_pongs() {
    for n in 0u32..6 {
        let mut hb = HeartbeatStatus::new();
        for _ in 0..n {
            hb.missed_pong();
        }
        for m in 0u32..8 {
            assert_eq!(hb.is_stale(m), n >= m);
        }
    }
}
