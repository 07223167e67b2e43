//! The decisions of the client that do not depend on the network: how a
//! subscribe or unsubscribe confirmation updates the local subscription
//! view, which instrument a channel name is about, and how a response
//! becomes the value or the error a request method returns.

use vstd::prelude::*;

use crate::error::envelope::{build_raw_error_response, is_error_envelope};
use crate::error::redaction::redacted;
use crate::error::{RawResponse, WebSocketError};
use crate::json::{string_items, JsonValue};
use crate::model::subscription::{opt_text, Subscription, SubscriptionManager};
use crate::model::subscription::channel_subject;
use crate::model::ws_types::{
    channel_shape, parse_channel, strip_usd, lemma_channel_words, lemma_channel_words_dot_free,
    JsonRpcRequest, JsonRpcResponse, JsonRpcResult, SubscriptionChannel,
};
use crate::text::{
    dot_free, has_char, join_dots, lemma_split_join, same_text, split, split_on, lemma_split_nonempty,
    uppercase_text,
};

verus! {

/// The instrument, currency or index name carried by the pieces `p` of a
/// channel name, if any.
pub open spec fn subject_of_parts(p: Seq<Seq<char>>) -> Option<Seq<char>> {
    let n = p.len();
    if (n == 2 || n == 3) && p[0] == "ticker"@ {
        Some(p[1])
    } else if n >= 2 && p[0] == "book"@ {
        Some(p[1])
    } else if n >= 2 && p[0] == "trades"@ {
        Some(p[1])
    } else if n == 4 && p[0] == "chart"@ && p[1] == "trades"@ {
        Some(p[2])
    } else if n == 4 && p[0] == "user"@ && p[1] == "changes"@ {
        Some(p[2])
    } else if n == 2 && p[0] == "estimated_expiration_price"@ {
        Some(p[1])
    } else if n == 3 && p[0] == "markprice"@ && p[1] == "options"@ {
        Some(p[2])
    } else if n == 3 && p[0] == "perpetual"@ {
        Some(p[1])
    } else if n == 2 && p[0] == "quote"@ {
        Some(p[1])
    } else if n == 2 && p[0] == "incremental_ticker"@ {
        Some(p[1])
    } else if n == 2 && (p[0] == "deribit_price_index"@ || p[0] == "deribit_price_ranking"@
        || p[0] == "deribit_price_statistics"@ || p[0] == "deribit_volatility_index"@) {
        Some(p[1])
    } else if n == 4 && p[0] == "instrument"@ && p[1] == "state"@ {
        Some(p[3])
    } else if n == 3 && p[0] == "block_rfq"@ && p[1] == "trades"@ {
        Some(p[2])
    } else if n == 2 && p[0] == "block_trade_confirmations"@ {
        Some(p[1])
    } else if n == 3 && p[0] == "user"@ && p[1] == "mmp_trigger"@ {
        Some(p[2])
    } else {
        None
    }
}

/// The instrument, currency or index name carried by a channel name.
pub open spec fn channel_subject_of(channel: Seq<char>) -> Option<Seq<char>> {
    subject_of_parts(split_on(channel, '.'))
}

/// A name that starts with `book.<i>` or `trades.<i>` is about `i`, whatever
/// pieces follow, and however many.
pub proof fn lemma_book_and_trades_subject(i: Seq<char>, rest: Seq<Seq<char>>)
    requires
        !has_char(i, '.'),
        dot_free(rest),
    ensures
        channel_subject_of(join_dots(seq!["book"@, i] + rest)) == Some(i),
        channel_subject_of(join_dots(seq!["trades"@, i] + rest)) == Some(i),
{
    lemma_channel_words();
    lemma_channel_words_dot_free();
    let pb = seq!["book"@, i] + rest;
    let pt = seq!["trades"@, i] + rest;
    assert(dot_free(pb)) by {
        assert forall|k: int| 0 <= k < pb.len() implies !has_char(#[trigger] pb[k], '.') by {
            if k >= 2 {
                assert(pb[k] == rest[k - 2]);
            }
        }
    }
    assert(dot_free(pt)) by {
        assert forall|k: int| 0 <= k < pt.len() implies !has_char(#[trigger] pt[k], '.') by {
            if k >= 2 {
                assert(pt[k] == rest[k - 2]);
            }
        }
    }
    lemma_split_join(pb);
    lemma_split_join(pt);
    assert(pb[0] == "book"@ && pb[1] == i);
    assert(pt[0] == "trades"@ && pt[1] == i);
}

/// A user MMP-trigger channel `user.mmp_trigger.<index>` is about its index
/// name.
pub proof fn lemma_mmp_trigger_subject(index: Seq<char>)
    requires
        !has_char(index, '.'),
    ensures
        channel_subject_of(join_dots(seq!["user"@, "mmp_trigger"@, index])) == Some(index),
{
    lemma_channel_words();
    lemma_channel_words_dot_free();
    reveal_strlit("mmp_trigger");
    let p = seq!["user"@, "mmp_trigger"@, index];
    assert(!has_char("mmp_trigger"@, '.'));
    assert(dot_free(p));
    lemma_split_join(p);
}

/// The subject that a confirmed channel name is recorded with agrees with
/// the channel that the name parses to: it is the channel's instrument,
/// currency or index name; for a kind-and-currency trades channel it is the
/// kind piece; for a price index it is the currency pair piece, whose
/// upper-cased text without `_usd` is the channel's currency.
pub proof fn lemma_confirmed_subject_matches_channel(s: Seq<char>, ch: SubscriptionChannel)
    requires
        channel_shape(ch) == parse_channel(s),
    ensures
        !(ch is Unknown) && !(ch is TradesByKind) && !(ch is PriceIndex) ==> channel_subject_of(s)
            == channel_subject(ch),
        ch matches SubscriptionChannel::TradesByKind { kind, .. } ==> channel_subject_of(s) == Some(
            kind@,
        ),
        ch matches SubscriptionChannel::PriceIndex(c) ==> (channel_subject_of(s) matches Some(x)
            && c@ == uppercase_text(strip_usd(x))),
{
    lemma_channel_words();
    reveal_strlit("mmp_trigger");
    lemma_split_nonempty(s, '.');
    match ch {
        SubscriptionChannel::Ticker(i) => {
            assert(channel_shape(ch).1[0] == i@);
        },
        SubscriptionChannel::OrderBook(i) => {
            assert(channel_shape(ch).1[0] == i@);
        },
        SubscriptionChannel::Trades(i) => {
            assert(channel_shape(ch).1[0] == i@);
        },
        SubscriptionChannel::ChartTrades { instrument, resolution } => {
            assert(channel_shape(ch).1[0] == instrument@);
            assert(channel_shape(ch).1[1] == resolution@);
        },
        SubscriptionChannel::UserOrders => {
        },
        SubscriptionChannel::UserTrades => {
        },
        SubscriptionChannel::UserPortfolio => {
        },
        SubscriptionChannel::UserChanges { instrument, interval } => {
            assert(channel_shape(ch).1[0] == instrument@);
            assert(channel_shape(ch).1[1] == interval@);
        },
        SubscriptionChannel::PriceIndex(c) => {
            assert(channel_shape(ch).1[0] == c@);
        },
        SubscriptionChannel::EstimatedExpirationPrice(i) => {
            assert(channel_shape(ch).1[0] == i@);
        },
        SubscriptionChannel::MarkPrice(i) => {
            assert(channel_shape(ch).1[0] == i@);
        },
        SubscriptionChannel::Funding(i) => {
            assert(channel_shape(ch).1[0] == i@);
        },
        SubscriptionChannel::Perpetual { instrument, interval } => {
            assert(channel_shape(ch).1[0] == instrument@);
            assert(channel_shape(ch).1[1] == interval@);
        },
        SubscriptionChannel::Quote(i) => {
            assert(channel_shape(ch).1[0] == i@);
        },
        SubscriptionChannel::PlatformState => {
        },
        SubscriptionChannel::PlatformStatePublicMethods => {
        },
        SubscriptionChannel::InstrumentState { kind, currency } => {
            assert(channel_shape(ch).1[0] == kind@);
            assert(channel_shape(ch).1[1] == currency@);
        },
        SubscriptionChannel::GroupedOrderBook { instrument, group, depth, interval } => {
            assert(channel_shape(ch).1[0] == instrument@);
            assert(channel_shape(ch).1[1] == group@);
            assert(channel_shape(ch).1[2] == depth@);
            assert(channel_shape(ch).1[3] == interval@);
        },
        SubscriptionChannel::IncrementalTicker(i) => {
            assert(channel_shape(ch).1[0] == i@);
        },
        SubscriptionChannel::TradesByKind { kind, currency, interval } => {
            assert(channel_shape(ch).1[0] == kind@);
            assert(channel_shape(ch).1[1] == currency@);
            assert(channel_shape(ch).1[2] == interval@);
        },
        SubscriptionChannel::PriceRanking(n) => {
            assert(channel_shape(ch).1[0] == n@);
        },
        SubscriptionChannel::PriceStatistics(n) => {
            assert(channel_shape(ch).1[0] == n@);
        },
        SubscriptionChannel::VolatilityIndex(n) => {
            assert(channel_shape(ch).1[0] == n@);
        },
        SubscriptionChannel::BlockRfqTrades(c) => {
            assert(channel_shape(ch).1[0] == c@);
        },
        SubscriptionChannel::BlockTradeConfirmations => {
        },
        SubscriptionChannel::BlockTradeConfirmationsByCurrency(c) => {
            assert(channel_shape(ch).1[0] == c@);
        },
        SubscriptionChannel::Unknown(u) => {
            assert(channel_shape(ch).1[0] == u@);
        },
    }
}

fn part_is(parts: &Vec<String>, k: usize, lit: &str) -> (r: bool)
    requires
        k < parts@.len(),
    ensures
        r == (parts@[k as int]@ == lit@),
{
    same_text(parts[k].as_str(), lit)
}

/// Extract the instrument/currency/index token carried by a channel name.
pub fn instrument_from_channel(channel: &str) -> (r: Option<String>)
    ensures
        opt_text(r) == channel_subject_of(channel@),
{
    let parts = split(channel, '.');
    let ghost p = parts@.map_values(|x: String| x@);
    proof {
        lemma_split_nonempty(channel@, '.');
    }
    assert(forall|k: int| 0 <= k < parts@.len() ==> #[trigger] p[k] == parts@[k]@);
    let n = parts.len();
    if (n == 2 || n == 3) && part_is(&parts, 0, "ticker") {
        Some(parts[1].clone())
    } else if n >= 2 && part_is(&parts, 0, "book") {
        Some(parts[1].clone())
    } else if n >= 2 && part_is(&parts, 0, "trades") {
        Some(parts[1].clone())
    } else if n == 4 && part_is(&parts, 0, "chart") && part_is(&parts, 1, "trades") {
        Some(parts[2].clone())
    } else if n == 4 && part_is(&parts, 0, "user") && part_is(&parts, 1, "changes") {
        Some(parts[2].clone())
    } else if n == 2 && part_is(&parts, 0, "estimated_expiration_price") {
        Some(parts[1].clone())
    } else if n == 3 && part_is(&parts, 0, "markprice") && part_is(&parts, 1, "options") {
        Some(parts[2].clone())
    } else if n == 3 && part_is(&parts, 0, "perpetual") {
        Some(parts[1].clone())
    } else if n == 2 && part_is(&parts, 0, "quote") {
        Some(parts[1].clone())
    } else if n == 2 && part_is(&parts, 0, "incremental_ticker") {
        Some(parts[1].clone())
    } else if n == 2 && (part_is(&parts, 0, "deribit_price_index") || part_is(
        &parts,
        0,
        "deribit_price_ranking",
    ) || part_is(&parts, 0, "deribit_price_statistics") || part_is(
        &parts,
        0,
        "deribit_volatility_index",
    )) {
        Some(parts[1].clone())
    } else if n == 4 && part_is(&parts, 0, "instrument") && part_is(&parts, 1, "state") {
        Some(parts[3].clone())
    } else if n == 3 && part_is(&parts, 0, "block_rfq") && part_is(&parts, 1, "trades") {
        Some(parts[2].clone())
    } else if n == 2 && part_is(&parts, 0, "block_trade_confirmations") {
        Some(parts[1].clone())
    } else if n == 3 && part_is(&parts, 0, "user") && part_is(&parts, 1, "mmp_trigger") {
        Some(parts[2].clone())
    } else {
        None
    }
}

/// The channel list a confirmation carries: the strings of a `Success`
/// result that is an array of strings; nothing for an error response.
pub open spec fn confirmation_list(response: JsonRpcResponse) -> Option<Seq<Seq<char>>> {
    match response.result {
        JsonRpcResult::Success { result } => string_items(result),
        JsonRpcResult::Error { .. } => None,
    }
}

/// The response is a success whose result is not an array of strings.
pub open spec fn malformed_confirmation(response: JsonRpcResponse) -> bool {
    match response.result {
        JsonRpcResult::Success { result } => string_items(result) is None,
        JsonRpcResult::Error { .. } => false,
    }
}

/// `new` is `old` after subscribing to the channels `names`: each of them is
/// present and active, with the channel type and instrument its name
/// denotes; every other channel is as it was.
pub open spec fn subscribed(
    old: Map<Seq<char>, Subscription>,
    new: Map<Seq<char>, Subscription>,
    names: Seq<Seq<char>>,
) -> bool {
    &&& new.dom() == old.dom().union(names.to_set())
    &&& forall|k: Seq<char>|
        #[trigger] names.contains(k) ==> {
            &&& new[k].channel@ == k
            &&& channel_shape(new[k].channel_type) == parse_channel(k)
            &&& opt_text(new[k].instrument) == channel_subject_of(k)
            &&& new[k].active
        }
    &&& forall|k: Seq<char>|
        old.contains_key(k) && !names.contains(k) ==> #[trigger] new[k] == old[k]
}

/// The message of the error for a malformed confirmation of `method`;
/// `decode_error` is the decoder's account of why the result is not a list
/// of strings.
pub open spec fn confirmation_error_text(method: Seq<char>, decode_error: Seq<char>) -> Seq<char> {
    "expected array of confirmed channel strings in "@ + method + " response: "@ + decode_error
}

/// Extract the confirmed channel list from a subscribe/unsubscribe response.
///
/// - `Success` with a JSON array of strings gives the list.
/// - `Success` with any other shape is an `InvalidMessage` error.
/// - `Error` gives nothing: the caller leaves local state untouched.
///
/// `decode_error` is the message `serde_json` gives when it reads the
/// result as a list of strings; it is read only for a malformed result.
pub fn confirmed_channels(response: &JsonRpcResponse, method: &str, decode_error: &str) -> (r: Result<
    Option<Vec<String>>,
    WebSocketError,
>)
    ensures
        match r {
            Ok(Some(list)) => confirmation_list(*response) == Some(
                list@.map_values(|c: String| c@),
            ),
            Ok(None) => response.result is Error,
            Err(e) => malformed_confirmation(*response) && (e matches WebSocketError::InvalidMessage(
                m,
            ) && m@ == confirmation_error_text(method@, decode_error@)),
        },
{
    match &response.result {
        JsonRpcResult::Success { result } => {
            match result {
                JsonValue::Array(items) => {
                    let mut list: Vec<String> = Vec::new();
                    let mut i: usize = 0;
                    while i < items.len()
                        invariant
                            *result == JsonValue::Array(*items),
                            response.result == (JsonRpcResult::Success { result: *result }),
                            i <= items@.len(),
                            list@.len() == i,
                            forall|j: int| 0 <= j < i ==> (#[trigger] items@[j]) is String,
                            forall|j: int| 0 <= j < i ==> (#[trigger] list@[j])@ == items@[j]->String_0@,
                        decreases items@.len() - i,
                    {
                        match &items[i] {
                            JsonValue::String(s) => {
                                list.push(s.clone());
                            },
                            _ => {
                                assert(!(items@[i as int] is String));
                                assert(string_items(*result) is None);
                                let mut m = String::new();
                                m.append("expected array of confirmed channel strings in ");
                                m.append(method);
                                m.append(" response: ");
                                m.append(decode_error);
                                return Err(WebSocketError::InvalidMessage(m));
                            },
                        }
                        i = i + 1;
                    }
                    assert(list@.map_values(|c: String| c@) =~= items@.map_values(
                        |x: JsonValue| crate::json::text_of(x)->0,
                    ));
                    Ok(Some(list))
                },
                _ => {
                    let mut m = String::new();
                    m.append("expected array of confirmed channel strings in ");
                    m.append(method);
                    m.append(" response: ");
                    m.append(decode_error);
                    Err(WebSocketError::InvalidMessage(m))
                },
            }
        },
        JsonRpcResult::Error { .. } => Ok(None),
    }
}

/// Apply a server-confirmed `public/subscribe` response to `manager`;
/// `decode_error` is as for `confirmed_channels`.
///
/// Adds each channel of the confirmed list, which may be a strict subset
/// of what was requested. An API-error response changes nothing; a
/// success whose result is not a list of channel names is an
/// `InvalidMessage` error and changes nothing.
pub fn apply_subscribe_confirmation(
    manager: &mut SubscriptionManager,
    response: &JsonRpcResponse,
    decode_error: &str,
) -> (r: Result<(), WebSocketError>)
    ensures
        r is Ok <==> !malformed_confirmation(*response),
        r matches Err(e) ==> (e matches WebSocketError::InvalidMessage(m) && m@
            == confirmation_error_text("public/subscribe"@, decode_error@)),
        match confirmation_list(*response) {
            Some(names) => subscribed(old(manager)@, final(manager)@, names),
            None => final(manager)@ == old(manager)@,
        },
{
    let confirmed = match confirmed_channels(response, "public/subscribe", decode_error) {
        Ok(Some(list)) => list,
        Ok(None) => {
            return Ok(());
        },
        Err(e) => {
            return Err(e);
        },
    };
    let ghost names = confirmed@.map_values(|c: String| c@);
    let ghost start = manager@;
    let mut i: usize = 0;
    assert(names.subrange(0, 0).to_set() =~= Set::<Seq<char>>::empty());
    assert(start.dom().union(names.subrange(0, 0).to_set()) =~= start.dom());
    while i < confirmed.len()
        invariant
            i <= confirmed@.len(),
            names == confirmed@.map_values(|c: String| c@),
            subscribed(start, manager@, names.subrange(0, i as int)),
        decreases confirmed@.len() - i,
    {
        let channel = confirmed[i].clone();
        let channel_type = SubscriptionChannel::from_string(channel.as_str());
        let instrument = instrument_from_channel(channel.as_str());
        let ghost before = manager@;
        let ghost key = channel@;
        manager.add_subscription(channel, channel_type, instrument);
        proof {
            let done = names.subrange(0, i as int);
            let next = names.subrange(0, i + 1);
            assert(next =~= done.push(key));
            done.lemma_push_to_set_commute(key);
            assert(next.to_set() =~= done.to_set().insert(key));
            assert(manager@.dom() =~= start.dom().union(next.to_set()));
            assert forall|k: Seq<char>| #[trigger] next.contains(k) implies {
                &&& manager@[k].channel@ == k
                &&& channel_shape(manager@[k].channel_type) == parse_channel(k)
                &&& opt_text(manager@[k].instrument) == channel_subject_of(k)
                &&& manager@[k].active
            } by {
                if k != key {
                    let j = choose|j: int| 0 <= j < next.len() && next[j] == k;
                    assert(done[j] == k);
                    assert(done.contains(k));
                }
            }
            assert forall|k: Seq<char>| start.contains_key(k) && !next.contains(k) implies #[trigger] manager@[k]
                == start[k] by {
                assert(!done.contains(k)) by {
                    if done.contains(k) {
                        let j = choose|j: int| 0 <= j < done.len() && done[j] == k;
                        assert(next[j] == k);
                    }
                }
                assert(k != key) by {
                    assert(next[i as int] == key);
                }
            }
        }
        i = i + 1;
    }
    assert(names.subrange(0, confirmed@.len() as int) =~= names);
    Ok(())
}

/// Apply a server-confirmed `public/unsubscribe` response to `manager`:
/// only the channels the server actually unsubscribed are removed. An
/// API-error response changes nothing; a success whose result is not a list
/// of channel names is an `InvalidMessage` error and changes nothing.
/// `decode_error` is as for `confirmed_channels`.
pub fn apply_unsubscribe_confirmation(
    manager: &mut SubscriptionManager,
    response: &JsonRpcResponse,
    decode_error: &str,
) -> (r: Result<(), WebSocketError>)
    ensures
        r is Ok <==> !malformed_confirmation(*response),
        r matches Err(e) ==> (e matches WebSocketError::InvalidMessage(m) && m@
            == confirmation_error_text("public/unsubscribe"@, decode_error@)),
        match confirmation_list(*response) {
            Some(names) => final(manager)@ == old(manager)@.remove_keys(names.to_set()),
            None => final(manager)@ == old(manager)@,
        },
{
    let confirmed = match confirmed_channels(response, "public/unsubscribe", decode_error) {
        Ok(Some(list)) => list,
        Ok(None) => {
            return Ok(());
        },
        Err(e) => {
            return Err(e);
        },
    };
    let ghost names = confirmed@.map_values(|c: String| c@);
    let ghost start = manager@;
    let mut i: usize = 0;
    assert(start.remove_keys(names.subrange(0, 0).to_set()) =~= start);
    while i < confirmed.len()
        invariant
            i <= confirmed@.len(),
            names == confirmed@.map_values(|c: String| c@),
            manager@ == start.remove_keys(names.subrange(0, i as int).to_set()),
        decreases confirmed@.len() - i,
    {
        let _removed = manager.remove_subscription(confirmed[i].as_str());
        proof {
            let done = names.subrange(0, i as int);
            let next = names.subrange(0, i + 1);
            assert(next =~= done.push(names[i as int]));
            done.lemma_push_to_set_commute(names[i as int]);
            assert(next.to_set() =~= done.to_set().insert(names[i as int]));
            assert(manager@ =~= start.remove_keys(next.to_set()));
        }
        i = i + 1;
    }
    assert(names.subrange(0, confirmed@.len() as int) =~= names);
    Ok(())
}

/// The `ApiError` for an error response to `request`, carrying the
/// reassembled error envelope as the kept response.
pub fn api_error_for(request: &JsonRpcRequest, response: &JsonRpcResponse) -> (r: WebSocketError)
    requires
        response.result is Error,
    ensures
        is_api_error_for(r, *request, *response),
{
    match &response.result {
        JsonRpcResult::Error { error } => {
            let raw = build_raw_error_response(response.jsonrpc.as_str(), &response.id, error);
            let ghost envelope = raw;
            let copy = crate::model::ws_types::copy_rpc_error(error);
            let r = WebSocketError::api_error_from_parts(request, copy, Some(RawResponse::Json(raw)));
            proof {
                assert(is_error_envelope(envelope, response.jsonrpc@, response.id, *error));
            }
            r
        },
        JsonRpcResult::Success { .. } => {
            proof {
                assert(false);
            }
            WebSocketError::ConnectionClosed
        },
    }
}

} // verus!

verus! {

/// `e` is the API error for the error response `response` to `request`:
/// the server's code and message, the request's method and redacted
/// parameters, and the redacted error envelope as the kept response.
pub open spec fn is_api_error_for(e: WebSocketError, request: JsonRpcRequest, response: JsonRpcResponse) -> bool {
    &&& response.result is Error
    &&& e matches WebSocketError::ApiError { code, message, method, params, raw_response } && {
        &&& code == response.result->Error_error.code as i64
        &&& message@ == response.result->Error_error.message@
        &&& method matches Some(m) && m@ == request.method@
        &&& match request.params {
            Some(p) => params matches Some(q) && redacted(p, q),
            None => params is None,
        }
        &&& raw_response matches Some(RawResponse::Json(k)) && exists|envelope: JsonValue|
            #[trigger] is_error_envelope(envelope, response.jsonrpc@, response.id, response.result->Error_error)
                && redacted(envelope, k)
    }
}

/// `e` is an invalid-message error whose message is `text`.
pub open spec fn is_invalid_message(e: WebSocketError, text: Seq<char>) -> bool {
    e matches WebSocketError::InvalidMessage(m) && m@ == text
}

/// The result document of a successful response.
pub open spec fn success_result(response: JsonRpcResponse) -> Option<JsonValue> {
    match response.result {
        JsonRpcResult::Success { result } => Some(result),
        JsonRpcResult::Error { .. } => None,
    }
}

fn text_after(prefix: &str, rest: &str) -> (r: String)
    ensures
        r@ == prefix@ + rest@,
{
    let mut r = String::new();
    r.append(prefix);
    r.append(rest);
    r
}

/// The string a request method returns from a response whose result is a
/// string (such as `"ok"`); `what` names the method in the error message.
pub fn string_result(request: &JsonRpcRequest, response: &JsonRpcResponse, what: &str) -> (r: Result<
    String,
    WebSocketError,
>)
    ensures
        match success_result(*response) {
            Some(v) => match crate::json::text_of(v) {
                Some(t) => r matches Ok(s) && s@ == t,
                None => r matches Err(e) && is_invalid_message(
                    e,
                    "Expected string result from "@ + what@,
                ),
            },
            None => r matches Err(e) && is_api_error_for(e, *request, *response),
        },
{
    match &response.result {
        JsonRpcResult::Success { result } => match result.as_str() {
            Some(s) => Ok(s.clone()),
            None => Err(WebSocketError::InvalidMessage(text_after("Expected string result from ", what))),
        },
        JsonRpcResult::Error { .. } => Err(api_error_for(request, response)),
    }
}

/// The server time (milliseconds since the Unix epoch) of a `get_time`
/// response.
pub fn time_result(request: &JsonRpcRequest, response: &JsonRpcResponse) -> (r: Result<u64, WebSocketError>)
    ensures
        match success_result(*response) {
            Some(v) => match crate::json::u64_of(v) {
                Some(t) => r == Ok::<u64, WebSocketError>(t),
                None => r matches Err(e) && is_invalid_message(
                    e,
                    "Expected u64 timestamp in get_time response"@,
                ),
            },
            None => r matches Err(e) && is_api_error_for(e, *request, *response),
        },
{
    match &response.result {
        JsonRpcResult::Success { result } => match result.as_u64() {
            Some(t) => Ok(t),
            None => Err(
                WebSocketError::InvalidMessage(
                    crate::text::owned("Expected u64 timestamp in get_time response"),
                ),
            ),
        },
        JsonRpcResult::Error { .. } => Err(api_error_for(request, response)),
    }
}

/// Whether cancel-on-disconnect is enabled, from the `enabled` flag of a
/// `get_cancel_on_disconnect` response.
pub fn enabled_flag_result(request: &JsonRpcRequest, response: &JsonRpcResponse) -> (r: Result<
    bool,
    WebSocketError,
>)
    ensures
        match success_result(*response) {
            Some(v) => match crate::json::member(v, "enabled"@) {
                Some(f) if f is Bool => r == Ok::<bool, WebSocketError>(f->Bool_0),
                _ => r matches Err(e) && is_invalid_message(
                    e,
                    "Expected 'enabled' boolean in get_cancel_on_disconnect response"@,
                ),
            },
            None => r matches Err(e) && is_api_error_for(e, *request, *response),
        },
{
    match &response.result {
        JsonRpcResult::Success { result } => {
            let flag = match result.get("enabled") {
                Some(v) => v.as_bool(),
                None => None,
            };
            match flag {
                Some(b) => Ok(b),
                None => Err(
                    WebSocketError::InvalidMessage(
                        crate::text::owned(
                            "Expected 'enabled' boolean in get_cancel_on_disconnect response",
                        ),
                    ),
                ),
            }
        },
        JsonRpcResult::Error { .. } => Err(api_error_for(request, response)),
    }
}

/// The outcome of a request whose successful result carries nothing the
/// caller needs (such as `set_mmp_config` or `reset_mmp`).
pub fn unit_result(request: &JsonRpcRequest, response: &JsonRpcResponse) -> (r: Result<(), WebSocketError>)
    ensures
        response.result is Success ==> r is Ok,
        response.result is Error ==> (r matches Err(e) && is_api_error_for(e, *request, *response)),
{
    match &response.result {
        JsonRpcResult::Success { .. } => Ok(()),
        JsonRpcResult::Error { .. } => Err(api_error_for(request, response)),
    }
}

/// Apply the response to an `unsubscribe_all` request: on success the
/// local subscription view is cleared and the server's string result
/// returned; on an API error the local view is kept so the caller can
/// retry.
pub fn apply_unsubscribe_all(
    manager: &mut SubscriptionManager,
    request: &JsonRpcRequest,
    response: &JsonRpcResponse,
) -> (r: Result<String, WebSocketError>)
    ensures
        response.result is Success ==> final(manager)@ == Map::<Seq<char>, Subscription>::empty(),
        response.result is Error ==> final(manager)@ == old(manager)@,
        match success_result(*response) {
            Some(v) => match crate::json::text_of(v) {
                Some(t) => r matches Ok(s) && s@ == t,
                None => r matches Err(e) && is_invalid_message(
                    e,
                    "Expected string result from "@ + "unsubscribe_all"@,
                ),
            },
            None => r matches Err(e) && is_api_error_for(e, *request, *response),
        },
{
    if let JsonRpcResult::Success { .. } = &response.result {
        manager.clear();
    }
    string_result(request, response, "unsubscribe_all")
}

} // verus!
