use deribit_websocket::client::{
    apply_subscribe_confirmation, apply_unsubscribe_all, apply_unsubscribe_confirmation,
    confirmed_channels, enabled_flag_result, instrument_from_channel, string_result, time_result,
    unit_result,
};
use deribit_websocket::error::WebSocketError;
use deribit_websocket::json::{JsonNumber, JsonValue};
use deribit_websocket::model::subscription::SubscriptionManager;
use deribit_websocket::model::ws_types::{
    JsonRpcError, JsonRpcRequest, JsonRpcResponse, JsonRpcResult, SubscriptionChannel,
};

fn s(t: &str) -> JsonValue {
    JsonValue::String(t.to_string())
}

fn n(v: u64) -> JsonValue {
    JsonValue::Number(JsonNumber::PosInt(v))
}

fn strings(items: &[&str]) -> JsonValue {
    JsonValue::Array(items.iter().map(|t| s(t)).collect())
}

fn success(result: JsonValue) -> JsonRpcResponse {
    JsonRpcResponse::success(n(1), result)
}

fn api_error(code: i32, message: &str) -> JsonRpcResponse {
    JsonRpcResponse::error(
        n(1),
        JsonRpcError {
            code,
            message: message.to_string(),
            data: None,
        },
    )
}

fn to_serde(v: &JsonValue) -> serde_json::Value {
    match v {
        JsonValue::Null => serde_json::Value::Null,
        JsonValue::Bool(b) => serde_json::Value::Bool(*b),
        JsonValue::Number(JsonNumber::PosInt(u)) => serde_json::Value::from(*u),
        JsonValue::Number(JsonNumber::NegInt(i)) => serde_json::Value::from(*i),
        JsonValue::Number(JsonNumber::FloatBits(b)) => serde_json::Value::from(f64::from_bits(*b)),
        JsonValue::String(t) => serde_json::Value::String(t.clone()),
        JsonValue::Array(items) => serde_json::Value::Array(items.iter().map(to_serde).collect()),
        JsonValue::Object(fields) => {
            let mut map = serde_json::Map::new();
            for (k, x) in fields {
                map.insert(k.clone(), to_serde(x));
            }
            serde_json::Value::Object(map)
        }
    }
}

/// What serde_json says when it reads the response's result as a list of
/// strings; empty when it can.
fn decode_error(response: &JsonRpcResponse) -> String {
    match &response.result {
        JsonRpcResult::Success { result } => match serde_json::from_value::<Vec<String>>(to_serde(result)) {
            Ok(_) => String::new(),
            Err(e) => e.to_string(),
        },
        JsonRpcResult::Error { .. } => String::new(),
    }
}

fn request(method: &str) -> JsonRpcRequest {
    JsonRpcRequest::new(n(1), method, None)
}

#[test]
fn test_apply_subscribe_confirmation_adds_only_server_confirmed_channels() {
    let mut manager = SubscriptionManager::new();
    let response = success(strings(&["ticker.BTC-PERPETUAL"]));

    apply_subscribe_confirmation(&mut manager, &response, &decode_error(&response)).expect("well-formed success response reconciles");

    let channels = manager.get_all_channels();
    assert_eq!(channels, vec!["ticker.BTC-PERPETUAL".to_string()]);
    assert!(
        manager.get_subscription("ticker.INVALID").is_none(),
        "rejected input channel must not leak into local state"
    );
}

#[test]
fn test_apply_subscribe_confirmation_happy_path_input_equals_response() {
    let mut manager = SubscriptionManager::new();
    let response = success(strings(&["ticker.BTC-PERPETUAL", "book.ETH-PERPETUAL.raw"]));

    apply_subscribe_confirmation(&mut manager, &response, &decode_error(&response)).expect("happy-path response reconciles");

    let mut channels = manager.get_all_channels();
    channels.sort();
    assert_eq!(
        channels,
        vec!["book.ETH-PERPETUAL.raw".to_string(), "ticker.BTC-PERPETUAL".to_string()]
    );
    let ticker = manager.get_subscription("ticker.BTC-PERPETUAL").expect("ticker subscription tracked");
    assert_eq!(ticker.instrument.as_deref(), Some("BTC-PERPETUAL"));
}

#[test]
fn test_apply_subscribe_confirmation_empty_result_is_noop() {
    let mut manager = SubscriptionManager::new();
    let response = success(strings(&[]));

    apply_subscribe_confirmation(&mut manager, &response, &decode_error(&response)).expect("empty confirmation is valid");

    assert!(manager.get_all_channels().is_empty());
}

#[test]
fn test_apply_subscribe_confirmation_api_error_is_noop() {
    let mut manager = SubscriptionManager::new();
    manager.add_subscription(
        "ticker.BTC-PERPETUAL".to_string(),
        SubscriptionChannel::Ticker("BTC-PERPETUAL".to_string()),
        Some("BTC-PERPETUAL".to_string()),
    );
    let before = manager.get_all_channels();
    let response = api_error(-32000, "subscription rejected");

    apply_subscribe_confirmation(&mut manager, &response, &decode_error(&response)).expect("api-error response must not return Err");

    assert_eq!(manager.get_all_channels(), before, "api-error response must not mutate the manager");
}

#[test]
fn test_apply_subscribe_confirmation_non_array_result_returns_invalid_message() {
    let mut manager = SubscriptionManager::new();
    let response = success(JsonValue::Object(vec![(
        "channels".to_string(),
        strings(&["ticker.BTC-PERPETUAL"]),
    )]));

    let err = apply_subscribe_confirmation(&mut manager, &response, &decode_error(&response))
        .expect_err("object result must not parse as Vec<String>");
    assert!(matches!(err, WebSocketError::InvalidMessage(_)), "expected InvalidMessage, got {:?}", err);
    assert!(
        manager.get_all_channels().is_empty(),
        "failed reconciliation must not partially mutate the manager"
    );
}

#[test]
fn test_apply_unsubscribe_confirmation_removes_only_server_confirmed_channels() {
    let mut manager = SubscriptionManager::new();
    manager.add_subscription(
        "ticker.BTC-PERPETUAL".to_string(),
        SubscriptionChannel::Ticker("BTC-PERPETUAL".to_string()),
        Some("BTC-PERPETUAL".to_string()),
    );
    manager.add_subscription(
        "ticker.ETH-PERPETUAL".to_string(),
        SubscriptionChannel::Ticker("ETH-PERPETUAL".to_string()),
        Some("ETH-PERPETUAL".to_string()),
    );
    let response = success(strings(&["ticker.BTC-PERPETUAL"]));

    apply_unsubscribe_confirmation(&mut manager, &response, &decode_error(&response)).expect("well-formed unsubscribe response reconciles");

    let channels = manager.get_all_channels();
    assert_eq!(channels, vec!["ticker.ETH-PERPETUAL".to_string()]);
}

#[test]
fn test_apply_unsubscribe_confirmation_happy_path() {
    let mut manager = SubscriptionManager::new();
    manager.add_subscription(
        "ticker.BTC-PERPETUAL".to_string(),
        SubscriptionChannel::Ticker("BTC-PERPETUAL".to_string()),
        Some("BTC-PERPETUAL".to_string()),
    );
    manager.add_subscription(
        "book.ETH-PERPETUAL.raw".to_string(),
        SubscriptionChannel::OrderBook("ETH-PERPETUAL".to_string()),
        Some("ETH-PERPETUAL".to_string()),
    );
    let response = success(strings(&["ticker.BTC-PERPETUAL", "book.ETH-PERPETUAL.raw"]));

    apply_unsubscribe_confirmation(&mut manager, &response, &decode_error(&response)).expect("happy-path unsubscribe reconciles");

    assert!(manager.get_all_channels().is_empty());
}

#[test]
fn test_apply_unsubscribe_confirmation_api_error_is_noop() {
    let mut manager = SubscriptionManager::new();
    manager.add_subscription(
        "ticker.BTC-PERPETUAL".to_string(),
        SubscriptionChannel::Ticker("BTC-PERPETUAL".to_string()),
        Some("BTC-PERPETUAL".to_string()),
    );
    let before = manager.get_all_channels();
    let response = api_error(-32000, "unsubscribe rejected");

    apply_unsubscribe_confirmation(&mut manager, &response, &decode_error(&response)).expect("api-error response must not return Err");

    assert_eq!(manager.get_all_channels(), before, "api-error response must not mutate the manager");
}

#[test]
fn test_apply_unsubscribe_confirmation_non_array_result_returns_invalid_message() {
    let mut manager = SubscriptionManager::new();
    manager.add_subscription(
        "ticker.BTC-PERPETUAL".to_string(),
        SubscriptionChannel::Ticker("BTC-PERPETUAL".to_string()),
        Some("BTC-PERPETUAL".to_string()),
    );
    let response = success(s("not an array"));

    let err = apply_unsubscribe_confirmation(&mut manager, &response, &decode_error(&response))
        .expect_err("string result must not parse as Vec<String>");
    assert!(matches!(err, WebSocketError::InvalidMessage(_)), "expected InvalidMessage, got {:?}", err);
    assert_eq!(
        manager.get_all_channels(),
        vec!["ticker.BTC-PERPETUAL".to_string()],
        "failed reconciliation must not partially mutate the manager"
    );
}

#[test]
fn malformed_confirmation_message_names_the_method() {
    let response = success(n(3));
    let err = confirmed_channels(&response, "public/subscribe", &decode_error(&response)).expect_err("not a list");
    match err {
        WebSocketError::InvalidMessage(m) => assert_eq!(
            m,
            "expected array of confirmed channel strings in public/subscribe response: invalid type: integer `3`, expected a sequence"
        ),
        other => panic!("expected InvalidMessage, got {other:?}"),
    }
    let mixed = success(JsonValue::Array(vec![s("ticker.BTC-PERPETUAL"), n(1)]));
    match confirmed_channels(&mixed, "public/unsubscribe", &decode_error(&mixed)) {
        Err(WebSocketError::InvalidMessage(m)) => assert_eq!(
            m,
            "expected array of confirmed channel strings in public/unsubscribe response: invalid type: integer `1`, expected a string"
        ),
        other => panic!("expected InvalidMessage, got {other:?}"),
    }
    assert!(matches!(confirmed_channels(&api_error(1, "x"), "public/subscribe", ""), Ok(None)));
}

#[test]
fn subscribe_confirmation_records_channel_types() {
    let mut manager = SubscriptionManager::new();
    let response = success(strings(&["deribit_price_index.btc_usd", "user.orders.any.any.raw", "bogus"]));
    apply_subscribe_confirmation(&mut manager, &response, &decode_error(&response)).expect("reconciles");
    let index = manager.get_subscription("deribit_price_index.btc_usd").expect("tracked");
    assert!(matches!(&index.channel_type, SubscriptionChannel::PriceIndex(c) if c == "BTC"));
    assert_eq!(index.instrument.as_deref(), Some("btc_usd"));
    assert!(index.active);
    let orders = manager.get_subscription("user.orders.any.any.raw").expect("tracked");
    assert!(matches!(orders.channel_type, SubscriptionChannel::UserOrders));
    assert_eq!(orders.instrument, None);
    let bogus = manager.get_subscription("bogus").expect("tracked");
    assert!(matches!(&bogus.channel_type, SubscriptionChannel::Unknown(c) if c == "bogus"));
}

#[test]
fn instrument_is_extracted_from_channel_names() {
    let cases: Vec<(&str, Option<&str>)> = vec![
        ("ticker.BTC-PERPETUAL", Some("BTC-PERPETUAL")),
        ("ticker.BTC-PERPETUAL.100ms", Some("BTC-PERPETUAL")),
        ("book.ETH-PERPETUAL.raw", Some("ETH-PERPETUAL")),
        ("trades.BTC-PERPETUAL.raw", Some("BTC-PERPETUAL")),
        ("chart.trades.BTC-PERPETUAL.1", Some("BTC-PERPETUAL")),
        ("user.changes.BTC-PERPETUAL.raw", Some("BTC-PERPETUAL")),
        ("estimated_expiration_price.btc_usd", Some("btc_usd")),
        ("markprice.options.btc_usd", Some("btc_usd")),
        ("perpetual.BTC-PERPETUAL.raw", Some("BTC-PERPETUAL")),
        ("quote.BTC-PERPETUAL", Some("BTC-PERPETUAL")),
        ("incremental_ticker.BTC-PERPETUAL", Some("BTC-PERPETUAL")),
        ("deribit_price_index.btc_usd", Some("btc_usd")),
        ("deribit_price_ranking.eth_usd", Some("eth_usd")),
        ("deribit_price_statistics.btc_usd", Some("btc_usd")),
        ("deribit_volatility_index.btc_usd", Some("btc_usd")),
        ("instrument.state.future.BTC", Some("BTC")),
        ("block_rfq.trades.BTC", Some("BTC")),
        ("block_trade_confirmations.ETH", Some("ETH")),
        ("user.mmp_trigger.btc_usd", Some("btc_usd")),
        ("user.orders.any.any.raw", None),
        ("platform_state", None),
        ("quote.BTC-PERPETUAL.extra", None),
        ("", None),
    ];
    for (channel, expected) in cases {
        assert_eq!(instrument_from_channel(channel).as_deref(), expected, "channel {channel}");
    }
}

#[test]
fn unsubscribe_all_clears_only_on_success() {
    let mut manager = SubscriptionManager::new();
    manager.add_subscription(
        "ticker.BTC-PERPETUAL".to_string(),
        SubscriptionChannel::Ticker("BTC-PERPETUAL".to_string()),
        Some("BTC-PERPETUAL".to_string()),
    );
    let req = request("public/unsubscribe_all");
    let err = apply_unsubscribe_all(&mut manager, &req, &api_error(13_009, "unauthorized"));
    assert!(matches!(err, Err(WebSocketError::ApiError { code: 13_009, .. })));
    assert_eq!(manager.get_all_channels().len(), 1);

    let ok = apply_unsubscribe_all(&mut manager, &req, &success(s("ok")));
    assert_eq!(ok.expect("string result"), "ok");
    assert!(manager.get_all_channels().is_empty());
}

#[test]
fn unsubscribe_all_with_non_string_result_still_clears() {
    let mut manager = SubscriptionManager::new();
    manager.add_subscription(
        "ticker.BTC-PERPETUAL".to_string(),
        SubscriptionChannel::Ticker("BTC-PERPETUAL".to_string()),
        None,
    );
    let req = request("public/unsubscribe_all");
    let r = apply_unsubscribe_all(&mut manager, &req, &success(n(1)));
    match r {
        Err(WebSocketError::InvalidMessage(m)) => assert_eq!(m, "Expected string result from unsubscribe_all"),
        other => panic!("expected InvalidMessage, got {other:?}"),
    }
    assert!(manager.get_all_channels().is_empty());
}

#[test]
fn typed_results_are_read_from_responses() {
    let req = request("public/get_time");
    assert_eq!(time_result(&req, &success(n(1_700_000_000_000))).expect("u64"), 1_700_000_000_000);
    match time_result(&req, &success(s("soon"))) {
        Err(WebSocketError::InvalidMessage(m)) => assert_eq!(m, "Expected u64 timestamp in get_time response"),
        other => panic!("expected InvalidMessage, got {other:?}"),
    }
    assert!(matches!(time_result(&req, &api_error(10, "x")), Err(WebSocketError::ApiError { code: 10, .. })));

    let flag = JsonValue::Object(vec![("enabled".to_string(), JsonValue::Bool(true))]);
    assert_eq!(enabled_flag_result(&req, &success(flag)).expect("flag"), true);
    assert!(matches!(
        enabled_flag_result(&req, &success(JsonValue::Object(vec![]))),
        Err(WebSocketError::InvalidMessage(_))
    ));

    assert_eq!(string_result(&req, &success(s("ok")), "set_heartbeat").expect("text"), "ok");
    match string_result(&req, &success(n(2)), "set_heartbeat") {
        Err(WebSocketError::InvalidMessage(m)) => assert_eq!(m, "Expected string result from set_heartbeat"),
        other => panic!("expected InvalidMessage, got {other:?}"),
    }

    assert!(unit_result(&req, &success(JsonValue::Null)).is_ok());
    match unit_result(&req, &api_error(11, "bad")) {
        Err(WebSocketError::ApiError { code, message, method, .. }) => {
            assert_eq!(code, 11);
            assert_eq!(message, "bad");
            assert_eq!(method.as_deref(), Some("public/get_time"));
        }
        other => panic!("expected ApiError, got {other:?}"),
    }
}

#[test]
fn subscribe_then_unsubscribe_restores_other_channels() {
    let mut manager = SubscriptionManager::new();
    manager.add_subscription(
        "ticker.ETH-PERPETUAL".to_string(),
        SubscriptionChannel::Ticker("ETH-PERPETUAL".to_string()),
        Some("ETH-PERPETUAL".to_string()),
    );
    manager.deactivate_subscription("ticker.ETH-PERPETUAL");
    let confirmed = strings(&["ticker.BTC-PERPETUAL", "trades.BTC-PERPETUAL.raw"]);
    let response = success(confirmed);
    apply_subscribe_confirmation(&mut manager, &response, &decode_error(&response)).expect("subscribed");
    assert_eq!(manager.get_all_channels().len(), 3);
    let confirmed = strings(&["ticker.BTC-PERPETUAL", "trades.BTC-PERPETUAL.raw"]);
    let response = success(confirmed);
    apply_unsubscribe_confirmation(&mut manager, &response, &decode_error(&response)).expect("unsubscribed");
    assert_eq!(manager.get_all_channels(), vec!["ticker.ETH-PERPETUAL".to_string()]);
    let eth = manager.get_subscription("ticker.ETH-PERPETUAL").expect("kept");
    assert!(!eth.active, "the untouched channel keeps its state");
}
