//! Account model enumerations.

use vstd::prelude::*;

verus! {

/// Direction of a position (buy/sell).
#[derive(Clone, Copy, Debug, PartialEq, Eq, Structural)]
pub enum Direction {
    /// Buy/long position
    Buy,
    /// Sell/short position
    Sell,
    /// Zero position (no direction)
    Zero,
}

/// The wire name of a direction.
pub open spec fn direction_name(d: Direction) -> Seq<char> {
    match d {
        Direction::Buy => "buy"@,
        Direction::Sell => "sell"@,
        Direction::Zero => "zero"@,
    }
}

impl Direction {
    /// Returns the direction as a string.
    pub fn as_str(&self) -> (s: &'static str)
        ensures
            s@ == direction_name(*self),
    {
        match self {
            Direction::Buy => "buy",
            Direction::Sell => "sell",
            Direction::Zero => "zero",
        }
    }
}

} // verus!
