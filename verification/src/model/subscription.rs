//! Subscription management for the WebSocket client.

use vstd::prelude::*;

use crate::model::ws_types::{channel_name_of, channel_shape, SubscriptionChannel};
use crate::text::same_text;

verus! {

/// Subscription information.
#[derive(Debug, Clone)]
pub struct Subscription {
    /// Channel name
    pub channel: String,
    /// Channel type
    pub channel_type: SubscriptionChannel,
    /// Instrument name (if applicable)
    pub instrument: Option<String>,
    /// Whether subscription is active
    pub active: bool,
}

/// No two subscriptions in `s` share a channel name.
pub open spec fn channels_distinct(s: Seq<Subscription>) -> bool {
    forall|i: int, j: int| 0 <= i < j < s.len() ==> s[i].channel@ != s[j].channel@
}

/// Some subscription in `s` is for channel `k`.
pub open spec fn has_channel(s: Seq<Subscription>, k: Seq<char>) -> bool {
    exists|i: int| 0 <= i < s.len() && (#[trigger] s[i]).channel@ == k
}

/// The subscriptions of `s` keyed by channel name.
pub open spec fn by_channel(s: Seq<Subscription>) -> Map<Seq<char>, Subscription> {
    Map::new(
        |k: Seq<char>| has_channel(s, k),
        |k: Seq<char>| s[choose|i: int| 0 <= i < s.len() && (#[trigger] s[i]).channel@ == k],
    )
}

/// `sub` with its activity flag set to `active`.
pub open spec fn with_active(sub: Subscription, active: bool) -> Subscription {
    Subscription { active, ..sub }
}

/// `m` with every subscription's activity flag set to `active`.
pub open spec fn all_set_active(m: Map<Seq<char>, Subscription>, active: bool) -> Map<
    Seq<char>,
    Subscription,
> {
    Map::new(|k: Seq<char>| m.contains_key(k), |k: Seq<char>| with_active(m[k], active))
}

/// `names` lists exactly the channels `k` of `m` for which `pick(m[k])`
/// holds, each once.
pub open spec fn lists_channels(
    names: Seq<Seq<char>>,
    m: Map<Seq<char>, Subscription>,
    only_active: bool,
) -> bool {
    &&& forall|i: int, j: int| 0 <= i < j < names.len() ==> names[i] != names[j]
    &&& forall|i: int|
        0 <= i < names.len() ==> m.contains_key(#[trigger] names[i]) && (only_active
            ==> m[names[i]].active)
    &&& forall|k: Seq<char>|
        m.contains_key(k) && (only_active ==> m[k].active) ==> #[trigger] names.contains(k)
}

/// The text of an optional string.
pub open spec fn opt_text(o: Option<String>) -> Option<Seq<char>> {
    match o {
        Some(s) => Some(s@),
        None => None,
    }
}

/// The instrument, currency or index name that a channel is about, if any.
pub open spec fn channel_subject(ch: SubscriptionChannel) -> Option<Seq<char>> {
    match ch {
        SubscriptionChannel::Ticker(i) => Some(i@),
        SubscriptionChannel::OrderBook(i) => Some(i@),
        SubscriptionChannel::Trades(i) => Some(i@),
        SubscriptionChannel::IncrementalTicker(i) => Some(i@),
        SubscriptionChannel::ChartTrades { instrument, .. } => Some(instrument@),
        SubscriptionChannel::GroupedOrderBook { instrument, .. } => Some(instrument@),
        SubscriptionChannel::UserChanges { instrument, .. } => Some(instrument@),
        SubscriptionChannel::TradesByKind { currency, .. } => Some(currency@),
        SubscriptionChannel::PriceIndex(n) => Some(n@),
        SubscriptionChannel::PriceRanking(n) => Some(n@),
        SubscriptionChannel::PriceStatistics(n) => Some(n@),
        SubscriptionChannel::VolatilityIndex(n) => Some(n@),
        SubscriptionChannel::EstimatedExpirationPrice(i) => Some(i@),
        SubscriptionChannel::MarkPrice(i) => Some(i@),
        SubscriptionChannel::Funding(i) => Some(i@),
        SubscriptionChannel::Quote(i) => Some(i@),
        SubscriptionChannel::Perpetual { instrument, .. } => Some(instrument@),
        SubscriptionChannel::InstrumentState { currency, .. } => Some(currency@),
        SubscriptionChannel::BlockRfqTrades(c) => Some(c@),
        SubscriptionChannel::BlockTradeConfirmationsByCurrency(c) => Some(c@),
        SubscriptionChannel::UserOrders => None,
        SubscriptionChannel::UserTrades => None,
        SubscriptionChannel::UserPortfolio => None,
        SubscriptionChannel::PlatformState => None,
        SubscriptionChannel::PlatformStatePublicMethods => None,
        SubscriptionChannel::BlockTradeConfirmations => None,
        SubscriptionChannel::Unknown(_) => None,
    }
}

/// The subject recorded for a channel is one of the channel's own fields:
/// the currency of a kind-and-currency trades channel and of an
/// instrument-state channel, and the first field of every other channel that
/// has fields. A channel without fields, and an unknown channel, records
/// none.
pub proof fn lemma_subject_is_a_channel_field(ch: SubscriptionChannel)
    ensures
        ch is Unknown || channel_shape(ch).1.len() == 0 ==> channel_subject(ch) is None,
        ch is TradesByKind || ch is InstrumentState ==> channel_subject(ch) == Some(
            channel_shape(ch).1[1],
        ),
        !(ch is Unknown) && !(ch is TradesByKind) && !(ch is InstrumentState) && channel_shape(ch).1.len()
            > 0 ==> channel_subject(ch) == Some(channel_shape(ch).1[0]),
{
}

/// Subscription manager: the subscriptions of a connection, keyed by
/// channel name.
#[derive(Debug)]
pub struct SubscriptionManager {
    subscriptions: Vec<Subscription>,
}

impl SubscriptionManager {
    #[verifier::type_invariant]
    spec fn inv(self) -> bool {
        channels_distinct(self.subscriptions@)
    }

    /// The subscriptions, keyed by channel name.
    pub closed spec fn view(&self) -> Map<Seq<char>, Subscription> {
        by_channel(self.subscriptions@)
    }

    /// The entry of `s` at `i` is what `by_channel` finds for its channel.
    proof fn lemma_lookup(s: Seq<Subscription>, i: int)
        requires
            channels_distinct(s),
            0 <= i < s.len(),
        ensures
            by_channel(s).contains_key(s[i].channel@),
            by_channel(s)[s[i].channel@] == s[i],
    {
        let k = s[i].channel@;
        assert(has_channel(s, k));
        let j = choose|j: int| 0 <= j < s.len() && (#[trigger] s[j]).channel@ == k;
        assert(j == i);
    }

    /// Appending a subscription for a new channel adds it to the map.
    proof fn lemma_push(s: Seq<Subscription>, x: Subscription)
        requires
            channels_distinct(s),
            !has_channel(s, x.channel@),
        ensures
            channels_distinct(s.push(x)),
            by_channel(s.push(x)) == by_channel(s).insert(x.channel@, x),
    {
        let t = s.push(x);
        assert(channels_distinct(t)) by {
            assert forall|i: int, j: int| 0 <= i < j < t.len() implies t[i].channel@ != t[j].channel@ by {
                if j == s.len() {
                    assert(t[i] == s[i]);
                }
            }
        }
        assert forall|k: Seq<char>| #[trigger] has_channel(t, k) == (has_channel(s, k) || k == x.channel@) by {
            if has_channel(s, k) {
                let i = choose|i: int| 0 <= i < s.len() && (#[trigger] s[i]).channel@ == k;
                assert(t[i] == s[i]);
            }
            if k == x.channel@ {
                assert(t[s.len() as int] == x);
            }
        }
        assert forall|k: Seq<char>| #[trigger] by_channel(t).contains_key(k) implies by_channel(t)[k]
            == by_channel(s).insert(x.channel@, x)[k] by {
            let i = choose|i: int| 0 <= i < t.len() && (#[trigger] t[i]).channel@ == k;
            Self::lemma_lookup(t, i);
            if i < s.len() {
                assert(t[i] == s[i]);
                Self::lemma_lookup(s, i);
            }
        }
        assert(by_channel(t) =~= by_channel(s).insert(x.channel@, x));
    }

    /// Removing the entry at `i` removes its channel from the map.
    proof fn lemma_remove(s: Seq<Subscription>, i: int)
        requires
            channels_distinct(s),
            0 <= i < s.len(),
        ensures
            channels_distinct(s.remove(i)),
            by_channel(s.remove(i)) == by_channel(s).remove(s[i].channel@),
    {
        let t = s.remove(i);
        let key = s[i].channel@;
        assert(forall|j: int| 0 <= j < t.len() ==> #[trigger] t[j] == (if j < i { s[j] } else { s[j + 1] }));
        assert(channels_distinct(t));
        assert forall|k: Seq<char>| #[trigger] has_channel(t, k) == (has_channel(s, k) && k != key) by {
            if has_channel(t, k) {
                let j = choose|j: int| 0 <= j < t.len() && (#[trigger] t[j]).channel@ == k;
                if j < i {
                    assert(s[j] == t[j]);
                } else {
                    assert(s[j + 1] == t[j]);
                }
            }
            if has_channel(s, k) && k != key {
                let j = choose|j: int| 0 <= j < s.len() && (#[trigger] s[j]).channel@ == k;
                if j < i {
                    assert(t[j] == s[j]);
                } else {
                    assert(t[j - 1] == s[j]);
                }
            }
        }
        assert forall|k: Seq<char>| #[trigger] by_channel(t).contains_key(k) implies by_channel(t)[k]
            == by_channel(s)[k] by {
            let j = choose|j: int| 0 <= j < t.len() && (#[trigger] t[j]).channel@ == k;
            Self::lemma_lookup(t, j);
            if j < i {
                Self::lemma_lookup(s, j);
            } else {
                Self::lemma_lookup(s, j + 1);
            }
        }
        assert(by_channel(t) =~= by_channel(s).remove(key));
    }

    /// The index of the subscription for `channel`, if there is one.
    fn find(&self, channel: &str) -> (r: Option<usize>)
        ensures
            match r {
                Some(i) => i < self.subscriptions@.len() && self.subscriptions@[i as int].channel@
                    == channel@,
                None => !has_channel(self.subscriptions@, channel@),
            },
    {
        let mut i: usize = 0;
        while i < self.subscriptions.len()
            invariant
                i <= self.subscriptions@.len(),
                forall|j: int| 0 <= j < i ==> (#[trigger] self.subscriptions@[j]).channel@ != channel@,
            decreases self.subscriptions@.len() - i,
        {
            if same_text(self.subscriptions[i].channel.as_str(), channel) {
                return Some(i);
            }
            i = i + 1;
        }
        None
    }

    /// Create a new subscription manager.
    pub fn new() -> (r: Self)
        ensures
            r@ == Map::<Seq<char>, Subscription>::empty(),
    {
        let r = SubscriptionManager { subscriptions: Vec::new() };
        assert(r@ =~= Map::<Seq<char>, Subscription>::empty());
        r
    }

    /// Add a subscription, replacing any previous one for the same channel.
    pub fn add_subscription(
        &mut self,
        channel: String,
        channel_type: SubscriptionChannel,
        instrument: Option<String>,
    )
        ensures
            final(self)@ == old(self)@.insert(
                channel@,
                Subscription { channel, channel_type, instrument, active: true },
            ),
    {
        proof {
            use_type_invariant(&*self);
        }
        let ghost key = channel@;
        let subscription = Subscription { channel, channel_type, instrument, active: true };
        let found = self.find(subscription.channel.as_str());
        let mut list = Vec::new();
        std::mem::swap(&mut list, &mut self.subscriptions);
        let ghost start = list@;
        if let Some(i) = found {
            proof {
                Self::lemma_remove(list@, i as int);
                Self::lemma_lookup(start, i as int);
            }
            let _previous = list.remove(i);
            proof {
                assert(!has_channel(list@, key)) by {
                    if has_channel(list@, key) {
                        let j = choose|j: int| 0 <= j < list@.len() && (#[trigger] list@[j]).channel@ == key;
                        assert(by_channel(list@).contains_key(key));
                    }
                }
                assert(by_channel(start).remove(key).insert(key, subscription) =~= by_channel(
                    start,
                ).insert(key, subscription));
            }
        }
        proof {
            Self::lemma_push(list@, subscription);
        }
        list.push(subscription);
        self.subscriptions = list;
    }

    /// Add a subscription from channel type: the channel name and the
    /// instrument are taken from the channel.
    pub fn add_subscription_from_channel(&mut self, channel_type: SubscriptionChannel)
        ensures
            final(self)@.dom() == old(self)@.dom().insert(channel_name_of(channel_type)),
            final(self)@[channel_name_of(channel_type)].channel@ == channel_name_of(channel_type),
            final(self)@[channel_name_of(channel_type)].channel_type == channel_type,
            opt_text(final(self)@[channel_name_of(channel_type)].instrument) == channel_subject(
                channel_type,
            ),
            final(self)@[channel_name_of(channel_type)].active,
            forall|k: Seq<char>|
                k != channel_name_of(channel_type) && #[trigger] old(self)@.contains_key(k)
                    ==> final(self)@[k] == old(self)@[k],
    {
        let channel = channel_type.channel_name();
        let instrument = match &channel_type {
            SubscriptionChannel::Ticker(inst)
            | SubscriptionChannel::OrderBook(inst)
            | SubscriptionChannel::Trades(inst)
            | SubscriptionChannel::IncrementalTicker(inst) => Some(inst.clone()),
            SubscriptionChannel::ChartTrades { instrument, .. }
            | SubscriptionChannel::GroupedOrderBook { instrument, .. } => Some(instrument.clone()),
            SubscriptionChannel::UserChanges { instrument, .. } => Some(instrument.clone()),
            SubscriptionChannel::TradesByKind { currency, .. } => Some(currency.clone()),
            SubscriptionChannel::PriceIndex(index_name)
            | SubscriptionChannel::PriceRanking(index_name)
            | SubscriptionChannel::PriceStatistics(index_name)
            | SubscriptionChannel::VolatilityIndex(index_name) => Some(index_name.clone()),
            SubscriptionChannel::EstimatedExpirationPrice(inst)
            | SubscriptionChannel::MarkPrice(inst)
            | SubscriptionChannel::Funding(inst)
            | SubscriptionChannel::Quote(inst) => Some(inst.clone()),
            SubscriptionChannel::Perpetual { instrument, .. } => Some(instrument.clone()),
            SubscriptionChannel::InstrumentState { currency, .. } => Some(currency.clone()),
            SubscriptionChannel::BlockRfqTrades(currency)
            | SubscriptionChannel::BlockTradeConfirmationsByCurrency(currency) => Some(
                currency.clone(),
            ),
            SubscriptionChannel::UserOrders
            | SubscriptionChannel::UserTrades
            | SubscriptionChannel::UserPortfolio
            | SubscriptionChannel::PlatformState
            | SubscriptionChannel::PlatformStatePublicMethods
            | SubscriptionChannel::BlockTradeConfirmations
            | SubscriptionChannel::Unknown(_) => None,
        };
        self.add_subscription(channel, channel_type, instrument);
    }

    /// Remove a subscription.
    pub fn remove_subscription(&mut self, channel: &str) -> (r: Option<Subscription>)
        ensures
            final(self)@ == old(self)@.remove(channel@),
            match r {
                Some(s) => old(self)@.contains_key(channel@) && old(self)@[channel@] == s,
                None => !old(self)@.contains_key(channel@),
            },
    {
        proof {
            use_type_invariant(&*self);
        }
        match self.find(channel) {
            Some(i) => {
                let mut list = Vec::new();
                std::mem::swap(&mut list, &mut self.subscriptions);
                proof {
                    Self::lemma_remove(list@, i as int);
                    Self::lemma_lookup(list@, i as int);
                }
                let removed = list.remove(i);
                self.subscriptions = list;
                Some(removed)
            },
            None => {
                assert(self@.remove(channel@) =~= self@);
                None
            },
        }
    }

    /// Every subscription is stored under its own channel name.
    pub proof fn lemma_keyed_by_channel(&self)
        ensures
            forall|k: Seq<char>| #[trigger] self@.contains_key(k) ==> self@[k].channel@ == k,
    {
        assert forall|k: Seq<char>| #[trigger] self@.contains_key(k) implies self@[k].channel@ == k by {
            let s = self.subscriptions@;
            assert(has_channel(s, k));
            let i = choose|i: int| 0 <= i < s.len() && (#[trigger] s[i]).channel@ == k;
            assert(self@[k] == s[i]);
        }
    }

    /// A listing of all channels names each subscription once, under its
    /// own channel name: the names are exactly the keys of the view, as many
    /// as there are subscriptions.
    pub proof fn lemma_listing_is_keyed_by_channel(&self, names: Seq<Seq<char>>)
        requires
            lists_channels(names, self@, false),
        ensures
            names.no_duplicates(),
            names.to_set() == self@.dom(),
            names.len() == self@.len(),
            forall|i: int| 0 <= i < names.len() ==> #[trigger] self@[names[i]].channel@ == names[i],
    {
        self.lemma_keyed_by_channel();
        assert(names.no_duplicates());
        assert forall|k: Seq<char>| #[trigger] names.to_set().contains(k) == self@.dom().contains(k) by {
            if names.contains(k) {
                let i = choose|i: int| 0 <= i < names.len() && names[i] == k;
                assert(self@.contains_key(names[i]));
            }
        }
        assert(names.to_set() =~= self@.dom());
        names.unique_seq_to_set();
        assert forall|i: int| 0 <= i < names.len() implies #[trigger] self@[names[i]].channel@ == names[i] by {
            assert(self@.contains_key(names[i]));
        }
    }

    /// Get subscription by channel.
    pub fn get_subscription(&self, channel: &str) -> (r: Option<&Subscription>)
        ensures
            match r {
                Some(s) => self@.contains_key(channel@) && self@[channel@] == *s && s.channel@
                    == channel@,
                None => !self@.contains_key(channel@),
            },
    {
        proof {
            use_type_invariant(self);
            self.lemma_keyed_by_channel();
        }
        match self.find(channel) {
            Some(i) => {
                proof {
                    Self::lemma_lookup(self.subscriptions@, i as int);
                }
                Some(&self.subscriptions[i])
            },
            None => None,
        }
    }

    /// Mark subscription as inactive.
    pub fn deactivate_subscription(&mut self, channel: &str)
        ensures
            old(self)@.contains_key(channel@) ==> final(self)@ == old(self)@.insert(
                channel@,
                with_active(old(self)@[channel@], false),
            ),
            !old(self)@.contains_key(channel@) ==> final(self)@ == old(self)@,
    {
        proof {
            use_type_invariant(&*self);
        }
        if let Some(i) = self.find(channel) {
            let mut list = Vec::new();
            std::mem::swap(&mut list, &mut self.subscriptions);
            let ghost start = list@;
            proof {
                Self::lemma_remove(list@, i as int);
                Self::lemma_lookup(list@, i as int);
            }
            let mut sub = list.remove(i);
            let ghost before = sub;
            sub.active = false;
            proof {
                assert(!has_channel(list@, channel@)) by {
                    if has_channel(list@, channel@) {
                        let j = choose|j: int| 0 <= j < list@.len() && (#[trigger] list@[j]).channel@ == channel@;
                        assert(by_channel(list@).contains_key(channel@));
                    }
                }
                assert(sub == with_active(before, false));
                Self::lemma_push(list@, sub);
                assert(by_channel(start).remove(channel@).insert(channel@, sub) =~= by_channel(
                    start,
                ).insert(channel@, sub));
            }
            list.push(sub);
            self.subscriptions = list;
        }
    }

    /// Every subscription with its activity flag set to `active`.
    fn set_all_active(&mut self, active: bool)
        ensures
            final(self)@ == all_set_active(old(self)@, active),
    {
        proof {
            use_type_invariant(&*self);
        }
        let mut list = Vec::new();
        std::mem::swap(&mut list, &mut self.subscriptions);
        let ghost start = list@;
        let mut done: Vec<Subscription> = Vec::new();
        while list.len() > 0
            invariant
                channels_distinct(start),
                list@ == start.subrange(0, list@.len() as int),
                done@.len() + list@.len() == start.len(),
                forall|m: int|
                    0 <= m < done@.len() ==> #[trigger] done@[m] == with_active(
                        start[start.len() - 1 - m],
                        active,
                    ),
            decreases list@.len(),
        {
            let mut sub = list.pop().unwrap();
            sub.active = active;
            done.push(sub);
        }
        let ghost n = start.len();
        assert forall|i: int, j: int| 0 <= i < j < done@.len() implies done@[i].channel@
            != done@[j].channel@ by {
            assert(done@[i].channel@ == start[n - 1 - i].channel@);
            assert(done@[j].channel@ == start[n - 1 - j].channel@);
        }
        assert forall|k: Seq<char>| #[trigger] has_channel(done@, k) == has_channel(start, k) by {
            if has_channel(done@, k) {
                let m = choose|m: int| 0 <= m < done@.len() && (#[trigger] done@[m]).channel@ == k;
                assert(start[n - 1 - m].channel@ == k);
            }
            if has_channel(start, k) {
                let i = choose|i: int| 0 <= i < start.len() && (#[trigger] start[i]).channel@ == k;
                assert(done@[n - 1 - i].channel@ == k);
            }
        }
        assert forall|k: Seq<char>| #[trigger] by_channel(done@).contains_key(k) implies by_channel(
            done@,
        )[k] == with_active(by_channel(start)[k], active) by {
            let m = choose|m: int| 0 <= m < done@.len() && (#[trigger] done@[m]).channel@ == k;
            Self::lemma_lookup(done@, m);
            Self::lemma_lookup(start, n - 1 - m);
        }
        assert(by_channel(done@) =~= all_set_active(by_channel(start), active));
        self.subscriptions = done;
    }

    /// Reactivate all subscriptions.
    pub fn reactivate_all(&mut self)
        ensures
            final(self)@ == all_set_active(old(self)@, true),
    {
        self.set_all_active(true);
    }

    /// Deactivate all subscriptions in place. Entries are preserved so a
    /// later call to `reactivate_all` can restore them on reconnect.
    pub fn deactivate_all(&mut self)
        ensures
            final(self)@ == all_set_active(old(self)@, false),
    {
        self.set_all_active(false);
    }

    /// Clear all subscriptions.
    pub fn clear(&mut self)
        ensures
            final(self)@ == Map::<Seq<char>, Subscription>::empty(),
    {
        self.subscriptions = Vec::new();
        assert(self@ =~= Map::<Seq<char>, Subscription>::empty());
    }

    /// Get all active subscriptions.
    pub fn active_subscriptions(&self) -> (r: Vec<&Subscription>)
        ensures
            lists_channels(r@.map_values(|s: &Subscription| s.channel@), self@, true),
            forall|i: int| 0 <= i < r@.len() ==> self@[(#[trigger] r@[i]).channel@] == *r@[i],
    {
        proof {
            use_type_invariant(self);
        }
        let ghost s = self.subscriptions@;
        let mut r: Vec<&Subscription> = Vec::new();
        let ghost mut idx: Seq<int> = Seq::empty();
        let mut i: usize = 0;
        while i < self.subscriptions.len()
            invariant
                s == self.subscriptions@,
                channels_distinct(s),
                i <= s.len(),
                idx.len() == r@.len(),
                forall|m: int|
                    0 <= m < r@.len() ==> 0 <= #[trigger] idx[m] < i && s[idx[m]].active && r@[m] == s[idx[m]],
                forall|j: int|
                    0 <= j < i && s[j].active ==> exists|m: int|
                        0 <= m < r@.len() && #[trigger] r@[m] == s[j],
                forall|m1: int, m2: int| 0 <= m1 < m2 < r@.len() ==> r@[m1].channel@ != r@[m2].channel@,
                forall|m: int, j: int| 0 <= m < r@.len() && i <= j < s.len() ==> (#[trigger] r@[m]).channel@ != (#[trigger] s[j]).channel@,
            decreases s.len() - i,
        {
            let ghost old_r = r@;
            if self.subscriptions[i].active {
                r.push(&self.subscriptions[i]);
                proof {
                    idx = idx.push(i as int);
                }
            }
            proof {
                assert forall|m: int| 0 <= m < old_r.len() implies r@[m] == old_r[m] by {}
                assert forall|j: int| 0 <= j < i + 1 && s[j].active implies exists|m: int|
                    0 <= m < r@.len() && #[trigger] r@[m] == s[j] by {
                    if j < i {
                        let m = choose|m: int| 0 <= m < old_r.len() && #[trigger] old_r[m] == s[j];
                        assert(r@[m] == old_r[m]);
                    } else {
                        assert(r@[old_r.len() as int] == s[j]);
                    }
                }
            }
            i = i + 1;
        }
        let ghost names = r@.map_values(|x: &Subscription| x.channel@);
        assert forall|m: int| 0 <= m < r@.len() implies self@[(#[trigger] r@[m]).channel@] == *r@[m]
            && self@.contains_key(r@[m].channel@) && self@[r@[m].channel@].active by {
            let j = idx[m];
            Self::lemma_lookup(s, j);
        }
        assert forall|k: Seq<char>| self@.contains_key(k) && self@[k].active implies #[trigger] names.contains(k) by {
            let j = choose|j: int| 0 <= j < s.len() && (#[trigger] s[j]).channel@ == k;
            Self::lemma_lookup(s, j);
            let m = choose|m: int| 0 <= m < r@.len() && #[trigger] r@[m] == s[j];
            assert(names[m] == k);
        }
        r
    }

    /// The names of the subscribed channels, active ones only when
    /// `only_active` holds.
    fn channel_names(&self, only_active: bool) -> (r: Vec<String>)
        ensures
            lists_channels(r@.map_values(|c: String| c@), self@, only_active),
    {
        proof {
            use_type_invariant(self);
        }
        let ghost s = self.subscriptions@;
        let mut r: Vec<String> = Vec::new();
        let ghost mut idx: Seq<int> = Seq::empty();
        let mut i: usize = 0;
        while i < self.subscriptions.len()
            invariant
                s == self.subscriptions@,
                channels_distinct(s),
                i <= s.len(),
                idx.len() == r@.len(),
                forall|m: int|
                    0 <= m < r@.len() ==> 0 <= #[trigger] idx[m] < i && (only_active ==> s[idx[m]].active)
                        && r@[m]@ == s[idx[m]].channel@,
                forall|j: int|
                    0 <= j < i && (only_active ==> s[j].active) ==> exists|m: int|
                        0 <= m < r@.len() && (#[trigger] r@[m])@ == s[j].channel@,
                forall|m1: int, m2: int| 0 <= m1 < m2 < r@.len() ==> r@[m1]@ != r@[m2]@,
                forall|m: int, j: int| 0 <= m < r@.len() && i <= j < s.len() ==> (#[trigger] r@[m])@ != (#[trigger] s[j]).channel@,
            decreases s.len() - i,
        {
            let ghost old_r = r@;
            if !only_active || self.subscriptions[i].active {
                r.push(self.subscriptions[i].channel.clone());
                proof {
                    idx = idx.push(i as int);
                }
            }
            proof {
                assert forall|m: int| 0 <= m < old_r.len() implies r@[m] == old_r[m] by {}
                assert forall|j: int| 0 <= j < i + 1 && (only_active ==> s[j].active) implies exists|m: int|
                    0 <= m < r@.len() && (#[trigger] r@[m])@ == s[j].channel@ by {
                    if j < i {
                        let m = choose|m: int| 0 <= m < old_r.len() && (#[trigger] old_r[m])@ == s[j].channel@;
                        assert(r@[m] == old_r[m]);
                    } else {
                        assert(r@[old_r.len() as int]@ == s[j].channel@);
                    }
                }
            }
            i = i + 1;
        }
        let ghost names = r@.map_values(|c: String| c@);
        assert forall|m: int| 0 <= m < names.len() implies self@.contains_key(#[trigger] names[m]) && (
        only_active ==> self@[names[m]].active) by {
            let j = idx[m];
            Self::lemma_lookup(s, j);
        }
        assert forall|k: Seq<char>| self@.contains_key(k) && (only_active ==> self@[k].active) implies #[trigger] names.contains(k) by {
            let j = choose|j: int| 0 <= j < s.len() && (#[trigger] s[j]).channel@ == k;
            Self::lemma_lookup(s, j);
            let m = choose|m: int| 0 <= m < r@.len() && (#[trigger] r@[m])@ == s[j].channel@;
            assert(names[m] == k);
        }
        r
    }

    /// Get all channel names.
    pub fn get_all_channels(&self) -> (r: Vec<String>)
        ensures
            lists_channels(r@.map_values(|c: String| c@), self@, false),
    {
        self.channel_names(false)
    }

    /// Get active channel names.
    pub fn get_active_channels(&self) -> (r: Vec<String>)
        ensures
            lists_channels(r@.map_values(|c: String| c@), self@, true),
    {
        self.channel_names(true)
    }
}

impl Default for SubscriptionManager {
    fn default() -> (r: Self)
        ensures
            r@ == Map::<Seq<char>, Subscription>::empty(),
    {
        Self::new()
    }
}

} // verus!

verus! {

/// Going offline deactivates every subscription without forgetting it, and
/// coming back reactivates each of them: the channels are the same, every
/// subscription is active again and keeps its channel, type and
/// instrument. A view whose subscriptions were all active is restored
/// exactly.
pub proof fn lemma_deactivate_then_reactivate_restores(m: Map<Seq<char>, Subscription>)
    ensures
        all_set_active(all_set_active(m, false), true) == all_set_active(m, true),
        all_set_active(all_set_active(m, false), true).dom() == m.dom(),
        forall|k: Seq<char>|
            #[trigger] m.contains_key(k) ==> all_set_active(all_set_active(m, false), true)[k]
                == with_active(m[k], true),
        (forall|k: Seq<char>| #[trigger] m.contains_key(k) ==> m[k].active) ==> all_set_active(
            all_set_active(m, false),
            true,
        ) == m,
{
    assert(all_set_active(all_set_active(m, false), true) =~= all_set_active(m, true));
    if forall|k: Seq<char>| #[trigger] m.contains_key(k) ==> m[k].active {
        assert(all_set_active(m, true) =~= m);
    }
}

/// After a subscription is added, looking its channel up gives it back.
pub proof fn lemma_added_subscription_is_found(m: Map<Seq<char>, Subscription>, sub: Subscription)
    ensures
        m.insert(sub.channel@, sub).contains_key(sub.channel@),
        m.insert(sub.channel@, sub)[sub.channel@] == sub,
{
}

/// Adding a subscription and then removing its channel leaves the other
/// subscriptions as they were; when the channel was new, the view is back
/// to what it was.
pub proof fn lemma_add_then_remove(m: Map<Seq<char>, Subscription>, sub: Subscription)
    ensures
        m.insert(sub.channel@, sub).remove(sub.channel@) == m.remove(sub.channel@),
        !m.contains_key(sub.channel@) ==> m.insert(sub.channel@, sub).remove(sub.channel@) == m,
{
    assert(m.insert(sub.channel@, sub).remove(sub.channel@) =~= m.remove(sub.channel@));
    if !m.contains_key(sub.channel@) {
        assert(m.remove(sub.channel@) =~= m);
    }
}

/// Unsubscribing from the channels a subscription confirmed gives the view
/// before the subscription, less those channels: every other channel is
/// untouched by the round trip.
pub proof fn lemma_subscribe_then_unsubscribe(
    before: Map<Seq<char>, Subscription>,
    between: Map<Seq<char>, Subscription>,
    names: Seq<Seq<char>>,
)
    requires
        crate::client::subscribed(before, between, names),
    ensures
        between.remove_keys(names.to_set()) == before.remove_keys(names.to_set()),
{
    assert forall|k: Seq<char>| #[trigger] between.remove_keys(names.to_set()).contains_key(k) implies
        before.remove_keys(names.to_set()).contains_key(k) && between.remove_keys(names.to_set())[k]
        == before.remove_keys(names.to_set())[k] by {
        assert(!names.to_set().contains(k));
        assert(!names.contains(k));
    }
    assert(between.remove_keys(names.to_set()) =~= before.remove_keys(names.to_set()));
}

/// A deactivated channel is no longer listed among the active channels, and
/// is still listed among all channels.
pub proof fn lemma_deactivated_channel_not_active(
    m: Map<Seq<char>, Subscription>,
    k: Seq<char>,
    active_names: Seq<Seq<char>>,
    all_names: Seq<Seq<char>>,
)
    requires
        m.contains_key(k),
        lists_channels(active_names, m.insert(k, with_active(m[k], false)), true),
        lists_channels(all_names, m.insert(k, with_active(m[k], false)), false),
    ensures
        !active_names.contains(k),
        all_names.contains(k),
{
    let m2 = m.insert(k, with_active(m[k], false));
    if active_names.contains(k) {
        let i = choose|i: int| 0 <= i < active_names.len() && active_names[i] == k;
        assert(m2[active_names[i]].active);
    }
    assert(m2.contains_key(k));
}

/// After `clear`, no channel is listed.
pub proof fn lemma_cleared_lists_nothing(names: Seq<Seq<char>>, only_active: bool)
    requires
        lists_channels(names, Map::<Seq<char>, Subscription>::empty(), only_active),
    ensures
        names.len() == 0,
{
    if names.len() > 0 {
        assert(Map::<Seq<char>, Subscription>::empty().contains_key(names[0]));
    }
}

} // verus!
