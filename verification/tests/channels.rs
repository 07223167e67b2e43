use deribit_websocket::model::ws_types::SubscriptionChannel;

fn name_of(ch: &SubscriptionChannel) -> String {
    ch.channel_name()
}

#[test]
fn channel_names_follow_the_wire_format() {
    let s = |t: &str| t.to_string();
    let cases: Vec<(SubscriptionChannel, &str)> = vec![
        (SubscriptionChannel::Ticker(s("BTC-PERPETUAL")), "ticker.BTC-PERPETUAL"),
        (SubscriptionChannel::OrderBook(s("BTC-PERPETUAL")), "book.BTC-PERPETUAL.raw"),
        (SubscriptionChannel::Trades(s("BTC-PERPETUAL")), "trades.BTC-PERPETUAL.raw"),
        (
            SubscriptionChannel::ChartTrades { instrument: s("BTC-PERPETUAL"), resolution: s("1") },
            "chart.trades.BTC-PERPETUAL.1",
        ),
        (SubscriptionChannel::UserOrders, "user.orders.any.any.raw"),
        (SubscriptionChannel::UserTrades, "user.trades.any.any.raw"),
        (SubscriptionChannel::UserPortfolio, "user.portfolio.any"),
        (
            SubscriptionChannel::UserChanges { instrument: s("BTC-PERPETUAL"), interval: s("raw") },
            "user.changes.BTC-PERPETUAL.raw",
        ),
        (SubscriptionChannel::PriceIndex(s("BTC")), "deribit_price_index.btc_usd"),
        (SubscriptionChannel::EstimatedExpirationPrice(s("btc_usd")), "estimated_expiration_price.btc_usd"),
        (SubscriptionChannel::MarkPrice(s("btc_usd")), "markprice.options.btc_usd"),
        (SubscriptionChannel::Funding(s("BTC-PERPETUAL")), "perpetual.BTC-PERPETUAL.raw"),
        (
            SubscriptionChannel::Perpetual { instrument: s("BTC-PERPETUAL"), interval: s("100ms") },
            "perpetual.BTC-PERPETUAL.100ms",
        ),
        (SubscriptionChannel::Quote(s("BTC-PERPETUAL")), "quote.BTC-PERPETUAL"),
        (SubscriptionChannel::PlatformState, "platform_state"),
        (SubscriptionChannel::PlatformStatePublicMethods, "platform_state.public_methods_state"),
        (
            SubscriptionChannel::InstrumentState { kind: s("future"), currency: s("BTC") },
            "instrument.state.future.BTC",
        ),
        (
            SubscriptionChannel::GroupedOrderBook {
                instrument: s("BTC-PERPETUAL"),
                group: s("none"),
                depth: s("10"),
                interval: s("100ms"),
            },
            "book.BTC-PERPETUAL.none.10.100ms",
        ),
        (SubscriptionChannel::IncrementalTicker(s("BTC-PERPETUAL")), "incremental_ticker.BTC-PERPETUAL"),
        (
            SubscriptionChannel::TradesByKind { kind: s("future"), currency: s("BTC"), interval: s("raw") },
            "trades.future.BTC.raw",
        ),
        (SubscriptionChannel::PriceRanking(s("btc_usd")), "deribit_price_ranking.btc_usd"),
        (SubscriptionChannel::PriceStatistics(s("btc_usd")), "deribit_price_statistics.btc_usd"),
        (SubscriptionChannel::VolatilityIndex(s("btc_usd")), "deribit_volatility_index.btc_usd"),
        (SubscriptionChannel::BlockRfqTrades(s("BTC")), "block_rfq.trades.BTC"),
        (SubscriptionChannel::BlockTradeConfirmations, "block_trade_confirmations"),
        (SubscriptionChannel::BlockTradeConfirmationsByCurrency(s("ETH")), "block_trade_confirmations.ETH"),
        (SubscriptionChannel::Unknown(s("custom.channel")), "custom.channel"),
    ];
    for (ch, expected) in cases {
        assert_eq!(name_of(&ch), expected);
    }
}

#[test]
fn channel_names_parse_back() {
    let names = [
        "ticker.BTC-PERPETUAL",
        "book.BTC-PERPETUAL.raw",
        "trades.BTC-PERPETUAL.raw",
        "chart.trades.BTC-PERPETUAL.1",
        "user.orders.any.any.raw",
        "user.trades.any.any.raw",
        "user.portfolio.any",
        "user.changes.BTC-PERPETUAL.raw",
        "deribit_price_index.btc_usd",
        "estimated_expiration_price.btc_usd",
        "markprice.options.btc_usd",
        "perpetual.BTC-PERPETUAL.100ms",
        "quote.BTC-PERPETUAL",
        "platform_state",
        "platform_state.public_methods_state",
        "instrument.state.future.BTC",
        "book.BTC-PERPETUAL.none.10.100ms",
        "incremental_ticker.BTC-PERPETUAL",
        "trades.future.BTC.raw",
        "deribit_price_ranking.btc_usd",
        "deribit_price_statistics.btc_usd",
        "deribit_volatility_index.btc_usd",
        "block_rfq.trades.BTC",
        "block_trade_confirmations",
        "block_trade_confirmations.ETH",
    ];
    for name in names {
        let ch = SubscriptionChannel::from_string(name);
        assert!(!ch.is_unknown(), "{name} should be recognised");
        assert_eq!(ch.channel_name(), name);
    }
}

#[test]
fn channel_parsing_picks_the_right_variant() {
    assert!(matches!(SubscriptionChannel::from_string("ticker.BTC-PERPETUAL.100ms"), SubscriptionChannel::Ticker(i) if i == "BTC-PERPETUAL"));
    assert!(matches!(SubscriptionChannel::from_string("book.BTC-PERPETUAL.10.100ms"), SubscriptionChannel::OrderBook(i) if i == "BTC-PERPETUAL"));
    assert!(matches!(SubscriptionChannel::from_string("trades.BTC-PERPETUAL.100ms"), SubscriptionChannel::Trades(i) if i == "BTC-PERPETUAL"));
    assert!(matches!(
        SubscriptionChannel::from_string("trades.BTC-PERPETUAL.x.100ms"),
        SubscriptionChannel::Unknown(_)
    ));
    assert!(matches!(
        SubscriptionChannel::from_string("trades.option.ETH.100ms"),
        SubscriptionChannel::TradesByKind { kind, currency, interval } if kind == "option" && currency == "ETH" && interval == "100ms"
    ));
    assert!(matches!(SubscriptionChannel::from_string("user.orders.BTC-PERPETUAL.raw"), SubscriptionChannel::UserOrders));
    assert!(matches!(SubscriptionChannel::from_string("deribit_price_index.eth_usd"), SubscriptionChannel::PriceIndex(c) if c == "ETH"));
    assert!(matches!(SubscriptionChannel::from_string("deribit_price_index.btc_eur"), SubscriptionChannel::PriceIndex(c) if c == "BTC_EUR"));
    assert!(matches!(SubscriptionChannel::from_string("perpetual.BTC-PERPETUAL.raw"), SubscriptionChannel::Perpetual { instrument, interval } if instrument == "BTC-PERPETUAL" && interval == "raw"));
    assert!(SubscriptionChannel::from_string("nonsense").is_unknown());
    assert!(SubscriptionChannel::from_string("").is_unknown());
    assert!(matches!(SubscriptionChannel::from_string("ticker"), SubscriptionChannel::Unknown(c) if c == "ticker"));
}

#[test]
fn instrument_names_are_recognised_by_their_hyphen() {
    assert!(SubscriptionChannel::looks_like_instrument("BTC-PERPETUAL"));
    assert!(!SubscriptionChannel::looks_like_instrument("future"));
    assert!(!SubscriptionChannel::looks_like_instrument(""));
}

#[test]
fn reparsing_a_parsed_channel_name_gives_the_channel_back() {
    let names = [
        "ticker.BTC-PERPETUAL.100ms",
        "book.ETH-PERPETUAL.none.10.100ms",
        "trades.future.BTC.100ms",
        "trades.BTC-PERPETUAL.x",
        "deribit_price_index.btc_usd",
        "deribit_price_index.Eth",
        "deribit_price_index.x_usd_usd",
        "user.orders.BTC-PERPETUAL.raw",
        "user.changes.future.100ms",
        "perpetual.BTC-PERPETUAL.raw",
        "platform_state",
        "not.a.known.channel.at.all",
        "",
    ];
    for name in names {
        let ch = SubscriptionChannel::from_string(name);
        let again = SubscriptionChannel::from_string(&ch.channel_name());
        assert_eq!(again, ch, "{name}");
    }
    assert_eq!(
        SubscriptionChannel::from_string("deribit_price_index.eth_usd"),
        SubscriptionChannel::PriceIndex("ETH".to_string())
    );
    assert_eq!(SubscriptionChannel::PriceIndex("ETH".to_string()).channel_name(), "deribit_price_index.eth_usd");
}
