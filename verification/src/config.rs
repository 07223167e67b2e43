//! Configuration of the WebSocket client: the values it is built from
//! (environment settings, with defaults) and its builders.
//!
//! Reading the process environment is left to the caller, which hands the
//! raw variable values over as a `ConfigEnv`; the rules that turn them into
//! a configuration live here.

use vstd::prelude::*;
use std::time::Duration;
use url::{ParseError, Url};
use crate::constants::PRODUCTION_WS_URL;

verus! {

/// `url::Url`, carried through opaquely.
#[verifier::external_type_specification]
#[verifier::external_body]
pub struct ExUrl(Url);

/// `url::ParseError`, carried through opaquely.
#[verifier::external_type_specification]
#[verifier::external_body]
pub struct ExUrlParseError(ParseError);

/// `Url`'s derived `Clone`: the copy is the same URL.
pub assume_specification[ <Url as Clone>::clone ](u: &Url) -> (r: Url)
    ensures
        r == *u,
;

/// `Duration`'s `Clone` (it is `Copy`): the copy is the same duration.
pub assume_specification[ <Duration as Clone>::clone ](d: &Duration) -> (r: Duration)
    ensures
        r == *d,
;

/// What `Url::parse` gives for an input text.
pub uninterp spec fn url_parse_result(input: Seq<char>) -> Result<Url, ParseError>;

/// What `Duration::from_secs` gives for a number of seconds.
pub uninterp spec fn duration_from_secs(secs: u64) -> Duration;

/// Wraps `url::Url::parse`; its result is named `url_parse_result`.
#[verifier::external_body]
fn parse_url(input: &str) -> (r: Result<Url, ParseError>)
    ensures
        r == url_parse_result(input@),
{
    Url::parse(input)
}

/// Wraps `Duration::from_secs`; its result is named `duration_from_secs`.
#[verifier::external_body]
fn secs(n: u64) -> (d: Duration)
    ensures
        d == duration_from_secs(n),
{
    Duration::from_secs(n)
}

/// `c` is an ASCII decimal digit.
pub open spec fn is_digit(c: char) -> bool {
    '0' <= c && c <= '9'
}

/// The number written by a string of decimal digits.
pub open spec fn decimal_value(d: Seq<char>) -> nat
    decreases d.len(),
{
    if d.len() == 0 {
        0
    } else {
        decimal_value(d.drop_last()) * 10 + ((d.last() as u32) - ('0' as u32)) as nat
    }
}

/// The digits of an unsigned integer literal as `str::parse` reads them:
/// an optional `+` followed by at least one ASCII digit and nothing else.
pub open spec fn unsigned_digits(s: Seq<char>) -> Option<Seq<char>> {
    let body = if s.len() > 0 && s[0] == '+' {
        s.drop_first()
    } else {
        s
    };
    if body.len() > 0 && forall|i: int| 0 <= i < body.len() ==> is_digit(#[trigger] body[i]) {
        Some(body)
    } else {
        None
    }
}

/// The value `str::parse` gives for an unsigned integer type whose largest
/// value is `max`.
pub open spec fn parsed_unsigned(s: Seq<char>, max: nat) -> Option<nat> {
    match unsigned_digits(s) {
        Some(d) => if decimal_value(d) <= max {
            Some(decimal_value(d))
        } else {
            None
        },
        None => None,
    }
}

/// The value `str::parse` gives for `bool`.
pub open spec fn parsed_bool(s: Seq<char>) -> Option<bool> {
    if s == "true"@ {
        Some(true)
    } else if s == "false"@ {
        Some(false)
    } else {
        None
    }
}

/// Wraps `str::parse::<u64>`: an optional `+` and decimal digits whose
/// value fits in `u64`; anything else gives `None`.
#[verifier::external_body]
fn parse_u64(s: &str) -> (r: Option<u64>)
    ensures
        r == (match parsed_unsigned(s@, u64::MAX as nat) {
            Some(n) => Some(n as u64),
            None => None::<u64>,
        }),
{
    s.parse::<u64>().ok()
}

/// Wraps `str::parse::<u32>`: an optional `+` and decimal digits whose
/// value fits in `u32`; anything else gives `None`.
#[verifier::external_body]
fn parse_u32(s: &str) -> (r: Option<u32>)
    ensures
        r == (match parsed_unsigned(s@, u32::MAX as nat) {
            Some(n) => Some(n as u32),
            None => None::<u32>,
        }),
{
    s.parse::<u32>().ok()
}

/// Wraps `str::parse::<usize>`: an optional `+` and decimal digits whose
/// value fits in `usize`; anything else gives `None`.
#[verifier::external_body]
fn parse_usize(s: &str) -> (r: Option<usize>)
    ensures
        r == (match parsed_unsigned(s@, usize::MAX as nat) {
            Some(n) => Some(n as usize),
            None => None::<usize>,
        }),
{
    s.parse::<usize>().ok()
}

/// Wraps `str::parse::<bool>`: exactly `true` or `false`.
#[verifier::external_body]
fn parse_bool(s: &str) -> (r: Option<bool>)
    ensures
        r == parsed_bool(s@),
{
    s.parse::<bool>().ok()
}

/// The raw values of the environment variables the configuration is read
/// from; `None` where a variable is unset (or not valid Unicode).
#[derive(Debug, Clone, Default)]
pub struct ConfigEnv {
    /// `DERIBIT_WS_URL`
    pub ws_url: Option<String>,
    /// `DERIBIT_HEARTBEAT_INTERVAL` (seconds)
    pub heartbeat_interval: Option<String>,
    /// `DERIBIT_RECONNECT_ATTEMPTS`
    pub reconnect_attempts: Option<String>,
    /// `DERIBIT_RECONNECT_DELAY` (seconds)
    pub reconnect_delay: Option<String>,
    /// `DERIBIT_CONNECTION_TIMEOUT` (seconds)
    pub connection_timeout: Option<String>,
    /// `DERIBIT_ENABLE_LOGGING`
    pub enable_logging: Option<String>,
    /// `DERIBIT_LOG_LEVEL`
    pub log_level: Option<String>,
    /// `DERIBIT_TEST_MODE`
    pub test_mode: Option<String>,
    /// `DERIBIT_CLIENT_ID`
    pub client_id: Option<String>,
    /// `DERIBIT_CLIENT_SECRET`
    pub client_secret: Option<String>,
    /// `DERIBIT_REQUEST_TIMEOUT` (seconds)
    pub request_timeout: Option<String>,
    /// `DERIBIT_NOTIFICATION_CAPACITY`
    pub notification_capacity: Option<String>,
    /// `DERIBIT_DISPATCHER_CAPACITY`
    pub dispatcher_capacity: Option<String>,
}

/// WebSocket client configuration.
#[derive(Debug, Clone)]
pub struct WebSocketConfig {
    /// WebSocket URL
    pub ws_url: Url,
    /// Heartbeat interval
    pub heartbeat_interval: Duration,
    /// Maximum reconnection attempts
    pub max_reconnect_attempts: u32,
    /// Reconnection delay
    pub reconnect_delay: Duration,
    /// Connection timeout
    pub connection_timeout: Duration,
    /// Enable logging
    pub enable_logging: bool,
    /// Log level
    pub log_level: String,
    /// Test mode
    pub test_mode: bool,
    /// Client ID for authentication
    pub client_id: Option<String>,
    /// Client secret for authentication
    pub client_secret: Option<String>,
    /// Per-request timeout awaiting a matching JSON-RPC response
    pub request_timeout: Duration,
    /// Depth of the channel that buffers notifications for the consumer
    pub notification_channel_capacity: usize,
    /// Depth of the channel that carries outbound commands to the dispatcher
    pub dispatcher_command_capacity: usize,
}

/// A setting read as a `u64`, or `default` when unset or unreadable.
pub open spec fn env_u64(v: Option<String>, default: u64) -> u64 {
    match v {
        Some(s) => match parsed_unsigned(s@, u64::MAX as nat) {
            Some(n) => n as u64,
            None => default,
        },
        None => default,
    }
}

/// A setting read as a `u32`, or `default` when unset or unreadable.
pub open spec fn env_u32(v: Option<String>, default: u32) -> u32 {
    match v {
        Some(s) => match parsed_unsigned(s@, u32::MAX as nat) {
            Some(n) => n as u32,
            None => default,
        },
        None => default,
    }
}

/// A setting read as a `usize`, or `default` when unset or unreadable.
pub open spec fn env_usize(v: Option<String>, default: usize) -> usize {
    match v {
        Some(s) => match parsed_unsigned(s@, usize::MAX as nat) {
            Some(n) => n as usize,
            None => default,
        },
        None => default,
    }
}

/// A setting read as a `bool`, or `default` when unset or unreadable.
pub open spec fn env_bool(v: Option<String>, default: bool) -> bool {
    match v {
        Some(s) => match parsed_bool(s@) {
            Some(b) => b,
            None => default,
        },
        None => default,
    }
}

/// The optional owned text as a sequence.
pub open spec fn opt_text(o: Option<String>) -> Option<Seq<char>> {
    match o {
        Some(s) => Some(s@),
        None => None,
    }
}

/// `c` is the configuration made of `ws_url` and the settings in `env`,
/// each unset or unreadable setting taking its default: heartbeat 30 s,
/// 3 reconnect attempts, reconnect delay 5 s, connection timeout 10 s,
/// logging on, log level `info`, test mode off, request timeout 30 s,
/// notification capacity 1024, dispatcher capacity 64.
pub open spec fn is_config_from(c: WebSocketConfig, ws_url: Url, env: ConfigEnv) -> bool {
    &&& c.ws_url == ws_url
    &&& c.heartbeat_interval == duration_from_secs(env_u64(env.heartbeat_interval, 30))
    &&& c.max_reconnect_attempts == env_u32(env.reconnect_attempts, 3)
    &&& c.reconnect_delay == duration_from_secs(env_u64(env.reconnect_delay, 5))
    &&& c.connection_timeout == duration_from_secs(env_u64(env.connection_timeout, 10))
    &&& c.enable_logging == env_bool(env.enable_logging, true)
    &&& c.log_level@ == (match env.log_level {
        Some(s) => s@,
        None => "info"@,
    })
    &&& c.test_mode == env_bool(env.test_mode, false)
    &&& opt_text(c.client_id) == opt_text(env.client_id)
    &&& opt_text(c.client_secret) == opt_text(env.client_secret)
    &&& c.request_timeout == duration_from_secs(env_u64(env.request_timeout, 30))
    &&& c.notification_channel_capacity == env_usize(env.notification_capacity, 1024)
    &&& c.dispatcher_command_capacity == env_usize(env.dispatcher_capacity, 64)
}

/// The URL text a configuration is built from: `DERIBIT_WS_URL`, or the
/// production endpoint when it is unset.
pub open spec fn url_text(env: ConfigEnv) -> Seq<char> {
    match env.ws_url {
        Some(s) => s@,
        None => PRODUCTION_WS_URL@,
    }
}

fn read_u64(v: &Option<String>, default: u64) -> (r: u64)
    ensures
        r == env_u64(*v, default),
{
    match v {
        Some(s) => match parse_u64(s.as_str()) {
            Some(n) => n,
            None => default,
        },
        None => default,
    }
}

fn read_u32(v: &Option<String>, default: u32) -> (r: u32)
    ensures
        r == env_u32(*v, default),
{
    match v {
        Some(s) => match parse_u32(s.as_str()) {
            Some(n) => n,
            None => default,
        },
        None => default,
    }
}

fn read_usize(v: &Option<String>, default: usize) -> (r: usize)
    ensures
        r == env_usize(*v, default),
{
    match v {
        Some(s) => match parse_usize(s.as_str()) {
            Some(n) => n,
            None => default,
        },
        None => default,
    }
}

fn read_bool(v: &Option<String>, default: bool) -> (r: bool)
    ensures
        r == env_bool(*v, default),
{
    match v {
        Some(s) => match parse_bool(s.as_str()) {
            Some(b) => b,
            None => default,
        },
        None => default,
    }
}

fn read_text(v: &Option<String>) -> (r: Option<String>)
    ensures
        opt_text(r) == opt_text(*v),
{
    match v {
        Some(s) => Some(s.clone()),
        None => None,
    }
}

impl WebSocketConfig {
    /// Combines a URL with the settings in `env`, each unset or unreadable
    /// setting taking its default.
    pub fn from_parts(ws_url: Url, env: &ConfigEnv) -> (c: Self)
        ensures
            is_config_from(c, ws_url, *env),
    {
        let heartbeat_interval = secs(read_u64(&env.heartbeat_interval, 30));
        let max_reconnect_attempts = read_u32(&env.reconnect_attempts, 3);
        let reconnect_delay = secs(read_u64(&env.reconnect_delay, 5));
        let connection_timeout = secs(read_u64(&env.connection_timeout, 10));
        let enable_logging = read_bool(&env.enable_logging, true);
        let log_level = match &env.log_level {
            Some(s) => s.clone(),
            None => "info".to_string(),
        };
        let test_mode = read_bool(&env.test_mode, false);
        let client_id = read_text(&env.client_id);
        let client_secret = read_text(&env.client_secret);
        let request_timeout = secs(read_u64(&env.request_timeout, 30));
        let notification_channel_capacity = read_usize(&env.notification_capacity, 1024);
        let dispatcher_command_capacity = read_usize(&env.dispatcher_capacity, 64);
        WebSocketConfig {
            ws_url,
            heartbeat_interval,
            max_reconnect_attempts,
            reconnect_delay,
            connection_timeout,
            enable_logging,
            log_level,
            test_mode,
            client_id,
            client_secret,
            request_timeout,
            notification_channel_capacity,
            dispatcher_command_capacity,
        }
    }

    /// The configuration for the URL `url`, other settings from `env`;
    /// the URL's parse error when it is not a valid URL.
    pub fn with_url(url: &str, env: &ConfigEnv) -> (r: Result<Self, ParseError>)
        ensures
            match url_parse_result(url@) {
                Ok(u) => r matches Ok(c) && is_config_from(c, u, *env),
                Err(e) => r == Err::<Self, ParseError>(e),
            },
    {
        match parse_url(url) {
            Ok(u) => Ok(Self::from_parts(u, env)),
            Err(e) => Err(e),
        }
    }

    /// The configuration for `DERIBIT_WS_URL` (the production endpoint
    /// when unset), other settings from `env`; the URL's parse error when
    /// it is not a valid URL.
    pub fn try_new(env: &ConfigEnv) -> (r: Result<Self, ParseError>)
        ensures
            match url_parse_result(url_text(*env)) {
                Ok(u) => r matches Ok(c) && is_config_from(c, u, *env),
                Err(e) => r == Err::<Self, ParseError>(e),
            },
    {
        match &env.ws_url {
            Some(s) => Self::with_url(s.as_str(), env),
            None => Self::with_url(PRODUCTION_WS_URL, env),
        }
    }

    /// The default configuration: as `try_new`, falling back to the
    /// production endpoint when `DERIBIT_WS_URL` is not a valid URL.
    /// `None` only if the production endpoint itself did not parse.
    pub fn default_from(env: &ConfigEnv) -> (r: Option<Self>)
        ensures
            match url_parse_result(url_text(*env)) {
                Ok(u) => r matches Some(c) && is_config_from(c, u, *env),
                Err(_) => match url_parse_result(PRODUCTION_WS_URL@) {
                    Ok(p) => r matches Some(c) && is_config_from(c, p, *env),
                    Err(_) => r is None,
                },
            },
    {
        match Self::try_new(env) {
            Ok(c) => Some(c),
            Err(_) => match parse_url(PRODUCTION_WS_URL) {
                Ok(p) => Some(Self::from_parts(p, env)),
                Err(_) => None,
            },
        }
    }

    /// Set heartbeat interval.
    pub fn with_heartbeat_interval(self, interval: Duration) -> (r: Self)
        ensures
            r == (WebSocketConfig { heartbeat_interval: interval, ..self }),
    {
        WebSocketConfig { heartbeat_interval: interval, ..self }
    }

    /// Set maximum reconnection attempts.
    pub fn with_max_reconnect_attempts(self, attempts: u32) -> (r: Self)
        ensures
            r == (WebSocketConfig { max_reconnect_attempts: attempts, ..self }),
    {
        WebSocketConfig { max_reconnect_attempts: attempts, ..self }
    }

    /// Set reconnection delay.
    pub fn with_reconnect_delay(self, delay: Duration) -> (r: Self)
        ensures
            r == (WebSocketConfig { reconnect_delay: delay, ..self }),
    {
        WebSocketConfig { reconnect_delay: delay, ..self }
    }

    /// Set connection timeout.
    pub fn with_connection_timeout(self, timeout: Duration) -> (r: Self)
        ensures
            r == (WebSocketConfig { connection_timeout: timeout, ..self }),
    {
        WebSocketConfig { connection_timeout: timeout, ..self }
    }

    /// Enable or disable logging.
    pub fn with_logging(self, enable: bool) -> (r: Self)
        ensures
            r == (WebSocketConfig { enable_logging: enable, ..self }),
    {
        WebSocketConfig { enable_logging: enable, ..self }
    }

    /// Set log level.
    pub fn with_log_level(self, level: String) -> (r: Self)
        ensures
            r == (WebSocketConfig { log_level: level, ..self }),
    {
        WebSocketConfig { log_level: level, ..self }
    }

    /// Set test mode.
    pub fn with_test_mode(self, test_mode: bool) -> (r: Self)
        ensures
            r == (WebSocketConfig { test_mode: test_mode, ..self }),
    {
        WebSocketConfig { test_mode: test_mode, ..self }
    }

    /// Set the per-request timeout awaiting a matching JSON-RPC response.
    pub fn with_request_timeout(self, timeout: Duration) -> (r: Self)
        ensures
            r == (WebSocketConfig { request_timeout: timeout, ..self }),
    {
        WebSocketConfig { request_timeout: timeout, ..self }
    }

    /// Set the number of server-pushed frames buffered for the consumer.
    pub fn with_notification_channel_capacity(self, capacity: usize) -> (r: Self)
        ensures
            r == (WebSocketConfig { notification_channel_capacity: capacity, ..self }),
    {
        WebSocketConfig { notification_channel_capacity: capacity, ..self }
    }

    /// Set the number of outbound commands queued for the dispatcher task.
    pub fn with_dispatcher_command_capacity(self, capacity: usize) -> (r: Self)
        ensures
            r == (WebSocketConfig { dispatcher_command_capacity: capacity, ..self }),
    {
        WebSocketConfig { dispatcher_command_capacity: capacity, ..self }
    }

    /// Set client credentials.
    pub fn with_credentials(self, client_id: String, client_secret: String) -> (r: Self)
        ensures
            r == (WebSocketConfig {
                client_id: Some(client_id),
                client_secret: Some(client_secret),
                ..self
            }),
    {
        WebSocketConfig { client_id: Some(client_id), client_secret: Some(client_secret), ..self }
    }

    /// Set client ID.
    pub fn with_client_id(self, client_id: String) -> (r: Self)
        ensures
            r == (WebSocketConfig { client_id: Some(client_id), ..self }),
    {
        WebSocketConfig { client_id: Some(client_id), ..self }
    }

    /// Set client secret.
    pub fn with_client_secret(self, client_secret: String) -> (r: Self)
        ensures
            r == (WebSocketConfig { client_secret: Some(client_secret), ..self }),
    {
        WebSocketConfig { client_secret: Some(client_secret), ..self }
    }

    /// Whether both a client id and a client secret are set.
    pub fn has_credentials(&self) -> (r: bool)
        ensures
            r == (self.client_id is Some && self.client_secret is Some),
    {
        self.client_id.is_some() && self.client_secret.is_some()
    }

    /// The client id and secret, when both are set.
    pub fn get_credentials(&self) -> (r: Option<(&str, &str)>)
        ensures
            match (self.client_id, self.client_secret) {
                (Some(id), Some(secret)) => r matches Some(p) && p.0@ == id@ && p.1@ == secret@,
                _ => r is None,
            },
    {
        match (&self.client_id, &self.client_secret) {
            (Some(id), Some(secret)) => Some((id.as_str(), secret.as_str())),
            _ => None,
        }
    }
}

} // verus!
