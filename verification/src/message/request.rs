//! Outbound JSON-RPC request construction.

use vstd::prelude::*;

use crate::constants::methods::{
    PRIVATE_CANCEL, PRIVATE_CANCEL_ALL, PRIVATE_CANCEL_ALL_BY_CURRENCY,
    PRIVATE_CANCEL_ALL_BY_INSTRUMENT, PRIVATE_DISABLE_CANCEL_ON_DISCONNECT,
    PRIVATE_ENABLE_CANCEL_ON_DISCONNECT, PRIVATE_GET_ACCOUNT_SUMMARY,
    PRIVATE_GET_CANCEL_ON_DISCONNECT, PRIVATE_GET_OPEN_ORDERS,
    PRIVATE_GET_ORDER_HISTORY_BY_CURRENCY, PRIVATE_GET_ORDER_STATE, PRIVATE_GET_POSITIONS,
    PRIVATE_UNSUBSCRIBE_ALL, PUBLIC_AUTH, PUBLIC_DISABLE_HEARTBEAT, PUBLIC_GET_TIME, PUBLIC_HELLO,
    PUBLIC_SET_HEARTBEAT, PUBLIC_SUBSCRIBE, PUBLIC_TEST, PUBLIC_UNSUBSCRIBE,
    PUBLIC_UNSUBSCRIBE_ALL,
};
use crate::json::{
    is_text, member, opt_text_entry, push_text_field, string_items, text_fields, text_object,
    JsonNumber, JsonValue,
};
use crate::model::ws_types::JsonRpcRequest;
use crate::text::owned;

verus! {

/// The name of the JSON-RPC method that fetches the MMP configuration.
pub const PRIVATE_GET_MMP_CONFIG: &'static str = "private/get_mmp_config";

/// The name of the JSON-RPC method that resets an MMP group.
pub const PRIVATE_RESET_MMP: &'static str = "private/reset_mmp";

/// Request builder: assigns each request the next id of a counter that
/// starts at 1.
#[derive(Debug, Clone)]
pub struct RequestBuilder {
    id_counter: u64,
}

/// The request `r` is a JSON-RPC 2.0 call of `method` under the numeric id
/// `id`.
pub open spec fn is_call(r: JsonRpcRequest, id: u64, method: Seq<char>) -> bool {
    &&& r.jsonrpc@ == "2.0"@
    &&& r.id == JsonValue::Number(JsonNumber::PosInt(id))
    &&& r.method@ == method
}

/// The optional text as a sequence.
pub open spec fn opt_str(o: Option<&str>) -> Option<Seq<char>> {
    match o {
        Some(s) => Some(s@),
        None => None,
    }
}

/// The optional owned text as a sequence.
pub open spec fn opt_string(o: Option<String>) -> Option<Seq<char>> {
    match o {
        Some(s) => Some(s@),
        None => None,
    }
}

/// The request carries the parameters `{}`.
pub open spec fn empty_params(r: JsonRpcRequest) -> bool {
    r.params matches Some(p) && text_object(p, seq![])
}

/// The request carries an object of string parameters with these entries.
pub open spec fn text_params(r: JsonRpcRequest, entries: Seq<(Seq<char>, Seq<char>)>) -> bool {
    r.params matches Some(p) && text_object(p, entries)
}

/// The request carries `{"channels": [...]}` with these channel names.
pub open spec fn channel_params(r: JsonRpcRequest, channels: Seq<Seq<char>>) -> bool {
    r.params matches Some(p) && (p matches JsonValue::Object(f) && {
        &&& f@.len() == 1
        &&& f@[0].0@ == "channels"@
        &&& string_items(f@[0].1) == Some(channels)
    })
}

fn text_params_of(entries: Vec<(&str, &str)>) -> (r: JsonValue)
    ensures
        text_object(r, entries@.map_values(|e: (&str, &str)| (e.0@, e.1@))),
{
    let ghost want = entries@.map_values(|e: (&str, &str)| (e.0@, e.1@));
    let mut fields: Vec<(String, JsonValue)> = Vec::new();
    let mut i: usize = 0;
    while i < entries.len()
        invariant
            i <= entries@.len(),
            want == entries@.map_values(|e: (&str, &str)| (e.0@, e.1@)),
            text_fields(fields@, want.subrange(0, i as int)),
        decreases entries@.len() - i,
    {
        let (k, v) = entries[i];
        push_text_field(&mut fields, k, v);
        assert(want.subrange(0, i + 1) =~= want.subrange(0, i as int).push((k@, v@)));
        i = i + 1;
    }
    assert(want.subrange(0, entries@.len() as int) =~= want);
    JsonValue::Object(fields)
}

fn channels_params(channels: Vec<String>) -> (r: JsonValue)
    ensures
        r matches JsonValue::Object(f) && {
            &&& f@.len() == 1
            &&& f@[0].0@ == "channels"@
            &&& string_items(f@[0].1) == Some(channels@.map_values(|c: String| c@))
        },
{
    let mut items: Vec<JsonValue> = Vec::new();
    let mut i: usize = 0;
    while i < channels.len()
        invariant
            i <= channels@.len(),
            items@.len() == i,
            forall|j: int| 0 <= j < i ==> #[trigger] items@[j] is String,
            forall|j: int| 0 <= j < i ==> is_text(#[trigger] items@[j], channels@[j]@),
        decreases channels@.len() - i,
    {
        items.push(JsonValue::String(channels[i].clone()));
        i = i + 1;
    }
    let list = JsonValue::Array(items);
    assert(items@.map_values(|x: JsonValue| crate::json::text_of(x)->0) =~= channels@.map_values(
        |c: String| c@,
    ));
    let mut fields: Vec<(String, JsonValue)> = Vec::new();
    fields.push((owned("channels"), list));
    JsonValue::Object(fields)
}

impl RequestBuilder {
    /// The id the next request will get.
    pub closed spec fn next_id(&self) -> u64 {
        self.id_counter
    }

    /// Create a new request builder; the first request gets id 1.
    pub fn new() -> (r: Self)
        ensures
            r.next_id() == 1,
    {
        RequestBuilder { id_counter: 1 }
    }

    /// Whether another request can be numbered: the id counter has not
    /// reached `u64::MAX`.
    pub fn has_next_id(&self) -> (r: bool)
        ensures
            r == (self.next_id() < u64::MAX),
    {
        self.id_counter < u64::MAX
    }

    /// Build a JSON-RPC request with the next id.
    pub fn build_request(&mut self, method: &str, params: Option<JsonValue>) -> (r: JsonRpcRequest)
        requires
            old(self).next_id() < u64::MAX,
        ensures
            is_call(r, old(self).next_id(), method@),
            r.params == params,
            final(self).next_id() == old(self).next_id() + 1,
    {
        let id = self.id_counter;
        self.id_counter = self.id_counter + 1;
        JsonRpcRequest {
            jsonrpc: owned("2.0"),
            id: JsonValue::Number(JsonNumber::PosInt(id)),
            method: owned(method),
            params,
        }
    }

    /// Build authentication request.
    pub fn build_auth_request(&mut self, client_id: &str, client_secret: &str) -> (r: JsonRpcRequest)
        requires
            old(self).next_id() < u64::MAX,
        ensures
            is_call(r, old(self).next_id(), PUBLIC_AUTH@),
            text_params(
                r,
                seq![
                    ("grant_type"@, "client_credentials"@),
                    ("client_id"@, client_id@),
                    ("client_secret"@, client_secret@),
                ],
            ),
            final(self).next_id() == old(self).next_id() + 1,
    {
        let entries = vec![
            ("grant_type", "client_credentials"),
            ("client_id", client_id),
            ("client_secret", client_secret),
        ];
        assert(entries@.map_values(|e: (&str, &str)| (e.0@, e.1@)) =~= seq![
            ("grant_type"@, "client_credentials"@),
            ("client_id"@, client_id@),
            ("client_secret"@, client_secret@),
        ]);
        let params = text_params_of(entries);
        self.build_request(PUBLIC_AUTH, Some(params))
    }

    /// Build subscription request.
    pub fn build_subscribe_request(&mut self, channels: Vec<String>) -> (r: JsonRpcRequest)
        requires
            old(self).next_id() < u64::MAX,
        ensures
            is_call(r, old(self).next_id(), PUBLIC_SUBSCRIBE@),
            channel_params(r, channels@.map_values(|c: String| c@)),
            final(self).next_id() == old(self).next_id() + 1,
    {
        let params = channels_params(channels);
        self.build_request(PUBLIC_SUBSCRIBE, Some(params))
    }

    /// Build unsubscription request.
    pub fn build_unsubscribe_request(&mut self, channels: Vec<String>) -> (r: JsonRpcRequest)
        requires
            old(self).next_id() < u64::MAX,
        ensures
            is_call(r, old(self).next_id(), PUBLIC_UNSUBSCRIBE@),
            channel_params(r, channels@.map_values(|c: String| c@)),
            final(self).next_id() == old(self).next_id() + 1,
    {
        let params = channels_params(channels);
        self.build_request(PUBLIC_UNSUBSCRIBE, Some(params))
    }

    fn build_without_params(&mut self, method: &str) -> (r: JsonRpcRequest)
        requires
            old(self).next_id() < u64::MAX,
        ensures
            is_call(r, old(self).next_id(), method@),
            empty_params(r),
            final(self).next_id() == old(self).next_id() + 1,
    {
        let params = JsonValue::Object(Vec::new());
        self.build_request(method, Some(params))
    }

    /// Build public unsubscribe_all request (unsubscribes from all public
    /// channels; its parameters are `{}`).
    pub fn build_public_unsubscribe_all_request(&mut self) -> (r: JsonRpcRequest)
        requires
            old(self).next_id() < u64::MAX,
        ensures
            is_call(r, old(self).next_id(), PUBLIC_UNSUBSCRIBE_ALL@),
            empty_params(r),
            final(self).next_id() == old(self).next_id() + 1,
    {
        self.build_without_params(PUBLIC_UNSUBSCRIBE_ALL)
    }

    /// Build private unsubscribe_all request (unsubscribes from all private
    /// channels; its parameters are `{}`).
    pub fn build_private_unsubscribe_all_request(&mut self) -> (r: JsonRpcRequest)
        requires
            old(self).next_id() < u64::MAX,
        ensures
            is_call(r, old(self).next_id(), PRIVATE_UNSUBSCRIBE_ALL@),
            empty_params(r),
            final(self).next_id() == old(self).next_id() + 1,
    {
        self.build_without_params(PRIVATE_UNSUBSCRIBE_ALL)
    }

    /// Build test request (no parameters).
    pub fn build_test_request(&mut self) -> (r: JsonRpcRequest)
        requires
            old(self).next_id() < u64::MAX,
        ensures
            is_call(r, old(self).next_id(), PUBLIC_TEST@),
            r.params is None,
            final(self).next_id() == old(self).next_id() + 1,
    {
        self.build_request(PUBLIC_TEST, None)
    }

    /// Build set_heartbeat request: the server sends a heartbeat every
    /// `interval` seconds.
    pub fn build_set_heartbeat_request(&mut self, interval: u64) -> (r: JsonRpcRequest)
        requires
            old(self).next_id() < u64::MAX,
        ensures
            is_call(r, old(self).next_id(), PUBLIC_SET_HEARTBEAT@),
            r.params matches Some(p) && (p matches JsonValue::Object(f) && {
                &&& f@.len() == 1
                &&& f@[0].0@ == "interval"@
                &&& f@[0].1 == JsonValue::Number(JsonNumber::PosInt(interval))
            }),
            final(self).next_id() == old(self).next_id() + 1,
    {
        let mut fields: Vec<(String, JsonValue)> = Vec::new();
        fields.push((owned("interval"), JsonValue::from_u64(interval)));
        self.build_request(PUBLIC_SET_HEARTBEAT, Some(JsonValue::Object(fields)))
    }

    /// Build disable_heartbeat request (parameters `{}`).
    pub fn build_disable_heartbeat_request(&mut self) -> (r: JsonRpcRequest)
        requires
            old(self).next_id() < u64::MAX,
        ensures
            is_call(r, old(self).next_id(), PUBLIC_DISABLE_HEARTBEAT@),
            empty_params(r),
            final(self).next_id() == old(self).next_id() + 1,
    {
        self.build_without_params(PUBLIC_DISABLE_HEARTBEAT)
    }

    /// Build hello request, identifying the client to the server.
    pub fn build_hello_request(&mut self, client_name: &str, client_version: &str) -> (r:
        JsonRpcRequest)
        requires
            old(self).next_id() < u64::MAX,
        ensures
            is_call(r, old(self).next_id(), PUBLIC_HELLO@),
            text_params(
                r,
                seq![("client_name"@, client_name@), ("client_version"@, client_version@)],
            ),
            final(self).next_id() == old(self).next_id() + 1,
    {
        let entries = vec![("client_name", client_name), ("client_version", client_version)];
        assert(entries@.map_values(|e: (&str, &str)| (e.0@, e.1@)) =~= seq![
            ("client_name"@, client_name@),
            ("client_version"@, client_version@),
        ]);
        let params = text_params_of(entries);
        self.build_request(PUBLIC_HELLO, Some(params))
    }

    /// Build get time request (no parameters).
    pub fn build_get_time_request(&mut self) -> (r: JsonRpcRequest)
        requires
            old(self).next_id() < u64::MAX,
        ensures
            is_call(r, old(self).next_id(), PUBLIC_GET_TIME@),
            r.params is None,
            final(self).next_id() == old(self).next_id() + 1,
    {
        self.build_request(PUBLIC_GET_TIME, None)
    }

    /// Build enable_cancel_on_disconnect request (parameters `{}`).
    pub fn build_enable_cancel_on_disconnect_request(&mut self) -> (r: JsonRpcRequest)
        requires
            old(self).next_id() < u64::MAX,
        ensures
            is_call(r, old(self).next_id(), PRIVATE_ENABLE_CANCEL_ON_DISCONNECT@),
            empty_params(r),
            final(self).next_id() == old(self).next_id() + 1,
    {
        self.build_without_params(PRIVATE_ENABLE_CANCEL_ON_DISCONNECT)
    }

    /// Build disable_cancel_on_disconnect request (parameters `{}`).
    pub fn build_disable_cancel_on_disconnect_request(&mut self) -> (r: JsonRpcRequest)
        requires
            old(self).next_id() < u64::MAX,
        ensures
            is_call(r, old(self).next_id(), PRIVATE_DISABLE_CANCEL_ON_DISCONNECT@),
            empty_params(r),
            final(self).next_id() == old(self).next_id() + 1,
    {
        self.build_without_params(PRIVATE_DISABLE_CANCEL_ON_DISCONNECT)
    }

    /// Build get_cancel_on_disconnect request (parameters `{}`).
    pub fn build_get_cancel_on_disconnect_request(&mut self) -> (r: JsonRpcRequest)
        requires
            old(self).next_id() < u64::MAX,
        ensures
            is_call(r, old(self).next_id(), PRIVATE_GET_CANCEL_ON_DISCONNECT@),
            empty_params(r),
            final(self).next_id() == old(self).next_id() + 1,
    {
        self.build_without_params(PRIVATE_GET_CANCEL_ON_DISCONNECT)
    }

    fn build_with_optional_group(&mut self, method: &str, mmp_group: Option<String>) -> (r:
        JsonRpcRequest)
        requires
            old(self).next_id() < u64::MAX,
        ensures
            is_call(r, old(self).next_id(), method@),
            text_params(r, opt_text_entry("mmp_group"@, opt_string(mmp_group))),
            final(self).next_id() == old(self).next_id() + 1,
    {
        let mut fields: Vec<(String, JsonValue)> = Vec::new();
        if let Some(group) = &mmp_group {
            push_text_field(&mut fields, "mmp_group", group.as_str());
            assert(seq![].push(("mmp_group"@, group@)) =~= opt_text_entry(
                "mmp_group"@,
                opt_string(mmp_group),
            ));
        }
        self.build_request(method, Some(JsonValue::Object(fields)))
    }

    /// Build get MMP config request: `{"mmp_group": ..}` when a group is
    /// given, `{}` otherwise.
    pub fn build_get_mmp_config_request(&mut self, mmp_group: Option<String>) -> (r:
        JsonRpcRequest)
        requires
            old(self).next_id() < u64::MAX,
        ensures
            is_call(r, old(self).next_id(), PRIVATE_GET_MMP_CONFIG@),
            text_params(r, opt_text_entry("mmp_group"@, opt_string(mmp_group))),
            final(self).next_id() == old(self).next_id() + 1,
    {
        self.build_with_optional_group(PRIVATE_GET_MMP_CONFIG, mmp_group)
    }

    /// Build reset MMP request: `{"mmp_group": ..}` when a group is given,
    /// `{}` otherwise.
    pub fn build_reset_mmp_request(&mut self, mmp_group: Option<String>) -> (r: JsonRpcRequest)
        requires
            old(self).next_id() < u64::MAX,
        ensures
            is_call(r, old(self).next_id(), PRIVATE_RESET_MMP@),
            text_params(r, opt_text_entry("mmp_group"@, opt_string(mmp_group))),
            final(self).next_id() == old(self).next_id() + 1,
    {
        self.build_with_optional_group(PRIVATE_RESET_MMP, mmp_group)
    }

    /// Build get open orders request: the given filters among `currency`,
    /// `kind` and `type`, in that order.
    pub fn build_get_open_orders_request(
        &mut self,
        currency: Option<String>,
        kind: Option<String>,
        type_filter: Option<String>,
    ) -> (r: JsonRpcRequest)
        requires
            old(self).next_id() < u64::MAX,
        ensures
            is_call(r, old(self).next_id(), PRIVATE_GET_OPEN_ORDERS@),
            text_params(
                r,
                opt_text_entry("currency"@, opt_string(currency)) + opt_text_entry(
                    "kind"@,
                    opt_string(kind),
                ) + opt_text_entry("type"@, opt_string(type_filter)),
            ),
            final(self).next_id() == old(self).next_id() + 1,
    {
        let mut fields: Vec<(String, JsonValue)> = Vec::new();
        let ghost e1 = opt_text_entry("currency"@, opt_string(currency));
        let ghost e2 = opt_text_entry("kind"@, opt_string(kind));
        let ghost e3 = opt_text_entry("type"@, opt_string(type_filter));
        if let Some(c) = &currency {
            push_text_field(&mut fields, "currency", c.as_str());
            assert(seq![].push(("currency"@, c@)) =~= e1);
        } else {
            assert(fields@.len() == 0);
        }
        assert(text_fields(fields@, e1));
        if let Some(k) = &kind {
            push_text_field(&mut fields, "kind", k.as_str());
            assert(e1.push(("kind"@, k@)) =~= e1 + e2);
        } else {
            assert(e1 + e2 =~= e1);
        }
        assert(text_fields(fields@, e1 + e2));
        if let Some(t) = &type_filter {
            push_text_field(&mut fields, "type", t.as_str());
            assert((e1 + e2).push(("type"@, t@)) =~= e1 + e2 + e3);
        } else {
            assert(e1 + e2 + e3 =~= e1 + e2);
        }
        self.build_request(PRIVATE_GET_OPEN_ORDERS, Some(JsonValue::Object(fields)))
    }

    fn build_single_text(&mut self, method: &str, key: &str, value: &str) -> (r: JsonRpcRequest)
        requires
            old(self).next_id() < u64::MAX,
        ensures
            is_call(r, old(self).next_id(), method@),
            text_params(r, seq![(key@, value@)]),
            final(self).next_id() == old(self).next_id() + 1,
    {
        let mut fields: Vec<(String, JsonValue)> = Vec::new();
        push_text_field(&mut fields, key, value);
        assert(seq![].push((key@, value@)) =~= seq![(key@, value@)]);
        self.build_request(method, Some(JsonValue::Object(fields)))
    }

    /// Build cancel order request.
    pub fn build_cancel_request(&mut self, order_id: &str) -> (r: JsonRpcRequest)
        requires
            old(self).next_id() < u64::MAX,
        ensures
            is_call(r, old(self).next_id(), PRIVATE_CANCEL@),
            text_params(r, seq![("order_id"@, order_id@)]),
            final(self).next_id() == old(self).next_id() + 1,
    {
        self.build_single_text(PRIVATE_CANCEL, "order_id", order_id)
    }

    /// Build cancel all orders request (parameters `{}`).
    pub fn build_cancel_all_request(&mut self) -> (r: JsonRpcRequest)
        requires
            old(self).next_id() < u64::MAX,
        ensures
            is_call(r, old(self).next_id(), PRIVATE_CANCEL_ALL@),
            empty_params(r),
            final(self).next_id() == old(self).next_id() + 1,
    {
        self.build_without_params(PRIVATE_CANCEL_ALL)
    }

    /// Build cancel all orders by currency request.
    pub fn build_cancel_all_by_currency_request(&mut self, currency: &str) -> (r: JsonRpcRequest)
        requires
            old(self).next_id() < u64::MAX,
        ensures
            is_call(r, old(self).next_id(), PRIVATE_CANCEL_ALL_BY_CURRENCY@),
            text_params(r, seq![("currency"@, currency@)]),
            final(self).next_id() == old(self).next_id() + 1,
    {
        self.build_single_text(PRIVATE_CANCEL_ALL_BY_CURRENCY, "currency", currency)
    }

    /// Build cancel all orders by instrument request.
    pub fn build_cancel_all_by_instrument_request(&mut self, instrument_name: &str) -> (r:
        JsonRpcRequest)
        requires
            old(self).next_id() < u64::MAX,
        ensures
            is_call(r, old(self).next_id(), PRIVATE_CANCEL_ALL_BY_INSTRUMENT@),
            text_params(r, seq![("instrument_name"@, instrument_name@)]),
            final(self).next_id() == old(self).next_id() + 1,
    {
        self.build_single_text(PRIVATE_CANCEL_ALL_BY_INSTRUMENT, "instrument_name", instrument_name)
    }

    /// Build a get_positions request: no parameters when neither filter is
    /// given, else an object of the given `currency` and `kind` filters.
    pub fn build_get_positions_request(&mut self, currency: Option<&str>, kind: Option<&str>) -> (r:
        JsonRpcRequest)
        requires
            old(self).next_id() < u64::MAX,
        ensures
            is_call(r, old(self).next_id(), PRIVATE_GET_POSITIONS@),
            currency is None && kind is None ==> r.params is None,
            !(currency is None && kind is None) ==> text_params(
                r,
                opt_text_entry("currency"@, opt_str(currency)) + opt_text_entry(
                    "kind"@,
                    opt_str(kind),
                ),
            ),
            final(self).next_id() == old(self).next_id() + 1,
    {
        let mut fields: Vec<(String, JsonValue)> = Vec::new();
        let ghost e1 = opt_text_entry("currency"@, opt_str(currency));
        let ghost e2 = opt_text_entry("kind"@, opt_str(kind));
        if let Some(c) = currency {
            push_text_field(&mut fields, "currency", c);
            assert(seq![].push(("currency"@, c@)) =~= e1);
        }
        assert(text_fields(fields@, e1));
        if let Some(k) = kind {
            push_text_field(&mut fields, "kind", k);
            assert(e1.push(("kind"@, k@)) =~= e1 + e2);
        } else {
            assert(e1 + e2 =~= e1);
        }
        if fields.len() == 0 {
            self.build_request(PRIVATE_GET_POSITIONS, None)
        } else {
            self.build_request(PRIVATE_GET_POSITIONS, Some(JsonValue::Object(fields)))
        }
    }

    /// Build a get_account_summary request: `currency`, then `extended`
    /// when given.
    pub fn build_get_account_summary_request(&mut self, currency: &str, extended: Option<bool>) -> (r:
        JsonRpcRequest)
        requires
            old(self).next_id() < u64::MAX,
        ensures
            is_call(r, old(self).next_id(), PRIVATE_GET_ACCOUNT_SUMMARY@),
            r.params matches Some(p) && (p matches JsonValue::Object(f) && {
                &&& f@.len() == (if extended is Some { 2int } else { 1int })
                &&& f@[0].0@ == "currency"@
                &&& is_text(f@[0].1, currency@)
                &&& extended matches Some(x) ==> f@[1].0@ == "extended"@ && f@[1].1
                    == JsonValue::Bool(x)
            }),
            final(self).next_id() == old(self).next_id() + 1,
    {
        let mut fields: Vec<(String, JsonValue)> = Vec::new();
        push_text_field(&mut fields, "currency", currency);
        if let Some(x) = extended {
            fields.push((owned("extended"), JsonValue::Bool(x)));
        }
        self.build_request(PRIVATE_GET_ACCOUNT_SUMMARY, Some(JsonValue::Object(fields)))
    }

    /// Build a get_order_state request.
    pub fn build_get_order_state_request(&mut self, order_id: &str) -> (r: JsonRpcRequest)
        requires
            old(self).next_id() < u64::MAX,
        ensures
            is_call(r, old(self).next_id(), PRIVATE_GET_ORDER_STATE@),
            text_params(r, seq![("order_id"@, order_id@)]),
            final(self).next_id() == old(self).next_id() + 1,
    {
        self.build_single_text(PRIVATE_GET_ORDER_STATE, "order_id", order_id)
    }

    /// Build a get_order_history_by_currency request: `currency`, then
    /// `kind` and `count` when given.
    pub fn build_get_order_history_by_currency_request(
        &mut self,
        currency: &str,
        kind: Option<&str>,
        count: Option<u32>,
    ) -> (r: JsonRpcRequest)
        requires
            old(self).next_id() < u64::MAX,
        ensures
            is_call(r, old(self).next_id(), PRIVATE_GET_ORDER_HISTORY_BY_CURRENCY@),
            r.params matches Some(p) && (p matches JsonValue::Object(f) && {
                let nk: int = if kind is Some { 1 } else { 0 };
                &&& f@.len() == 1 + nk + (if count is Some { 1int } else { 0int })
                &&& f@[0].0@ == "currency"@
                &&& is_text(f@[0].1, currency@)
                &&& kind matches Some(k) ==> f@[1].0@ == "kind"@ && is_text(f@[1].1, k@)
                &&& count matches Some(c) ==> f@[1 + nk].0@ == "count"@ && f@[1 + nk].1
                    == JsonValue::Number(JsonNumber::PosInt(c as u64))
            }),
            final(self).next_id() == old(self).next_id() + 1,
    {
        let mut fields: Vec<(String, JsonValue)> = Vec::new();
        push_text_field(&mut fields, "currency", currency);
        if let Some(k) = kind {
            push_text_field(&mut fields, "kind", k);
        }
        if let Some(c) = count {
            fields.push((owned("count"), JsonValue::from_u64(c as u64)));
        }
        self.build_request(PRIVATE_GET_ORDER_HISTORY_BY_CURRENCY, Some(JsonValue::Object(fields)))
    }
}

impl Default for RequestBuilder {
    fn default() -> (r: Self)
        ensures
            r.next_id() == 1,
    {
        Self::new()
    }
}

} // verus!

verus! {

/// Requests built one after another by one builder carry strictly
/// increasing ids, so no two of them share an id: a request built while
/// the counter read `a` and one built later, when it read `b > a`, differ
/// in id.
pub proof fn lemma_later_request_has_larger_id(
    first: JsonRpcRequest,
    a: u64,
    first_method: Seq<char>,
    second: JsonRpcRequest,
    b: u64,
    second_method: Seq<char>,
)
    requires
        is_call(first, a, first_method),
        is_call(second, b, second_method),
        a < b,
    ensures
        first.id != second.id,
        crate::json::u64_of(first.id) == Some(a),
        crate::json::u64_of(second.id) == Some(b),
{
}

} // verus!
