use std::time::Duration;

use deribit_websocket::config::{ConfigEnv, WebSocketConfig};
use deribit_websocket::constants::PRODUCTION_WS_URL;

#[test]
fn defaults_apply_when_nothing_is_set() {
    let env = ConfigEnv::default();
    let c = WebSocketConfig::try_new(&env).expect("production URL parses");
    assert_eq!(c.ws_url.as_str(), PRODUCTION_WS_URL);
    assert_eq!(c.heartbeat_interval, Duration::from_secs(30));
    assert_eq!(c.max_reconnect_attempts, 3);
    assert_eq!(c.reconnect_delay, Duration::from_secs(5));
    assert_eq!(c.connection_timeout, Duration::from_secs(10));
    assert!(c.enable_logging);
    assert_eq!(c.log_level, "info");
    assert!(!c.test_mode);
    assert!(c.client_id.is_none());
    assert!(c.client_secret.is_none());
    assert_eq!(c.request_timeout, Duration::from_secs(30));
    assert_eq!(c.notification_channel_capacity, 1024);
    assert_eq!(c.dispatcher_command_capacity, 64);
}

#[test]
fn settings_override_defaults_and_bad_values_fall_back() {
    let env = ConfigEnv {
        ws_url: Some("wss://test.deribit.com/ws/api/v2".to_string()),
        heartbeat_interval: Some("+15".to_string()),
        reconnect_attempts: Some("7".to_string()),
        reconnect_delay: Some("-1".to_string()),
        connection_timeout: Some(" 4".to_string()),
        enable_logging: Some("false".to_string()),
        log_level: Some("debug".to_string()),
        test_mode: Some("TRUE".to_string()),
        client_id: Some("id".to_string()),
        client_secret: Some("secret".to_string()),
        request_timeout: Some("99999999999999999999".to_string()),
        notification_capacity: Some("2048".to_string()),
        dispatcher_capacity: Some("".to_string()),
    };
    let c = WebSocketConfig::try_new(&env).expect("testnet URL parses");
    assert_eq!(c.ws_url.as_str(), "wss://test.deribit.com/ws/api/v2");
    assert_eq!(c.heartbeat_interval, Duration::from_secs(15));
    assert_eq!(c.max_reconnect_attempts, 7);
    assert_eq!(c.reconnect_delay, Duration::from_secs(5));
    assert_eq!(c.connection_timeout, Duration::from_secs(10));
    assert!(!c.enable_logging);
    assert_eq!(c.log_level, "debug");
    assert!(!c.test_mode);
    assert!(c.has_credentials());
    assert_eq!(c.get_credentials(), Some(("id", "secret")));
    assert_eq!(c.request_timeout, Duration::from_secs(30));
    assert_eq!(c.notification_channel_capacity, 2048);
    assert_eq!(c.dispatcher_command_capacity, 64);
}

#[test]
fn invalid_urls_are_reported() {
    let env = ConfigEnv::default();
    assert!(WebSocketConfig::with_url("not a url", &env).is_err());
    let bad_env = ConfigEnv {
        ws_url: Some("::::".to_string()),
        ..ConfigEnv::default()
    };
    assert!(WebSocketConfig::try_new(&bad_env).is_err());
    let fallback = WebSocketConfig::default_from(&bad_env).expect("falls back to production");
    assert_eq!(fallback.ws_url.as_str(), PRODUCTION_WS_URL);
}

#[test]
fn with_url_keeps_other_settings_from_env() {
    let env = ConfigEnv {
        log_level: Some("warn".to_string()),
        ..ConfigEnv::default()
    };
    let c = WebSocketConfig::with_url("ws://127.0.0.1:9000/", &env).expect("valid URL");
    assert_eq!(c.ws_url.as_str(), "ws://127.0.0.1:9000/");
    assert_eq!(c.log_level, "warn");
}

#[test]
fn builders_change_one_setting() {
    let c = WebSocketConfig::with_url("wss://test.deribit.com/ws/api/v2", &ConfigEnv::default())
        .expect("valid URL")
        .with_heartbeat_interval(Duration::from_secs(11))
        .with_max_reconnect_attempts(9)
        .with_reconnect_delay(Duration::from_secs(2))
        .with_connection_timeout(Duration::from_secs(3))
        .with_logging(false)
        .with_log_level("trace".to_string())
        .with_test_mode(true)
        .with_request_timeout(Duration::from_secs(4))
        .with_notification_channel_capacity(8)
        .with_dispatcher_command_capacity(16);
    assert_eq!(c.heartbeat_interval, Duration::from_secs(11));
    assert_eq!(c.max_reconnect_attempts, 9);
    assert_eq!(c.reconnect_delay, Duration::from_secs(2));
    assert_eq!(c.connection_timeout, Duration::from_secs(3));
    assert!(!c.enable_logging);
    assert_eq!(c.log_level, "trace");
    assert!(c.test_mode);
    assert_eq!(c.request_timeout, Duration::from_secs(4));
    assert_eq!(c.notification_channel_capacity, 8);
    assert_eq!(c.dispatcher_command_capacity, 16);
    assert!(!c.has_credentials());
    assert!(c.get_credentials().is_none());

    let only_id = c.clone().with_client_id("me".to_string());
    assert!(!only_id.has_credentials());
    let both = only_id.with_client_secret("pw".to_string());
    assert_eq!(both.get_credentials(), Some(("me", "pw")));
    let replaced = both.with_credentials("a".to_string(), "b".to_string());
    assert_eq!(replaced.get_credentials(), Some(("a", "b")));
    assert_eq!(c.ws_url.as_str(), "wss://test.deribit.com/ws/api/v2");
}
