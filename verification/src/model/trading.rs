//! Trading enumerations used in order requests.

use vstd::prelude::*;

verus! {

/// Order type enumeration.
#[derive(Clone, Copy, Debug, PartialEq, Eq, Structural)]
pub enum OrderType {
    /// Limit order - executes at specified price or better
    Limit,
    /// Market order - executes immediately at best available price
    Market,
    /// Stop limit order - becomes limit order when stop price is reached
    StopLimit,
    /// Stop market order - becomes market order when stop price is reached
    StopMarket,
    /// Take limit order - limit order to take profit
    TakeLimit,
    /// Take market order - market order to take profit
    TakeMarket,
    /// Market limit order - market order with limit price protection
    MarketLimit,
    /// Trailing stop order - stop order that trails the market price
    TrailingStop,
}

/// The wire name of an order type.
pub open spec fn order_type_name(t: OrderType) -> Seq<char> {
    match t {
        OrderType::Limit => "limit"@,
        OrderType::Market => "market"@,
        OrderType::StopLimit => "stop_limit"@,
        OrderType::StopMarket => "stop_market"@,
        OrderType::TakeLimit => "take_limit"@,
        OrderType::TakeMarket => "take_market"@,
        OrderType::MarketLimit => "market_limit"@,
        OrderType::TrailingStop => "trailing_stop"@,
    }
}

impl OrderType {
    /// Returns the string representation of the order type.
    pub fn as_str(&self) -> (s: &'static str)
        ensures
            s@ == order_type_name(*self),
    {
        match self {
            OrderType::Limit => "limit",
            OrderType::Market => "market",
            OrderType::StopLimit => "stop_limit",
            OrderType::StopMarket => "stop_market",
            OrderType::TakeLimit => "take_limit",
            OrderType::TakeMarket => "take_market",
            OrderType::MarketLimit => "market_limit",
            OrderType::TrailingStop => "trailing_stop",
        }
    }
}

/// Time in force specification for orders.
#[derive(Clone, Copy, Debug, PartialEq, Eq, Structural)]
pub enum TimeInForce {
    /// Good till cancelled - order remains active until filled or cancelled
    GoodTilCancelled,
    /// Good till day - order expires at end of trading day
    GoodTilDay,
    /// Fill or kill - order must be filled immediately and completely or cancelled
    FillOrKill,
    /// Immediate or cancel - fill what can be filled immediately, cancel the rest
    ImmediateOrCancel,
}

/// The wire name of a time-in-force value.
pub open spec fn time_in_force_name(t: TimeInForce) -> Seq<char> {
    match t {
        TimeInForce::GoodTilCancelled => "good_til_cancelled"@,
        TimeInForce::GoodTilDay => "good_til_day"@,
        TimeInForce::FillOrKill => "fill_or_kill"@,
        TimeInForce::ImmediateOrCancel => "immediate_or_cancel"@,
    }
}

impl TimeInForce {
    /// Returns the string representation of the time in force.
    pub fn as_str(&self) -> (s: &'static str)
        ensures
            s@ == time_in_force_name(*self),
    {
        match self {
            TimeInForce::GoodTilCancelled => "good_til_cancelled",
            TimeInForce::GoodTilDay => "good_til_day",
            TimeInForce::FillOrKill => "fill_or_kill",
            TimeInForce::ImmediateOrCancel => "immediate_or_cancel",
        }
    }
}

/// Trigger type for conditional orders.
#[derive(Clone, Copy, Debug, PartialEq, Eq, Structural)]
pub enum Trigger {
    /// Trigger based on index price
    IndexPrice,
    /// Trigger based on mark price
    MarkPrice,
    /// Trigger based on last traded price
    LastPrice,
}

} // verus!
