//! Exact money amounts.
//!
//! A cost is a whole number of hundredths of the currency unit, so that no
//! amount is ever rounded: what is written is what is charged.

use vstd::prelude::*;

verus! {

/// How many of the smallest amounts make one currency unit.
pub const UNITS_PER_WHOLE: i64 = 100;

/// A fixed-point decimal with two fractional digits.
///
/// Its view is the number of hundredths it stands for.
#[derive(Clone, Copy, Debug, PartialEq, Eq, Structural)]
pub struct Decimal {
    pub hundredths: i64,
}

impl View for Decimal {
    type V = int;

    open spec fn view(&self) -> int {
        self.hundredths as int
    }
}

impl Decimal {
    /// The amount nothing: what a free service costs.
    pub fn zero() -> (amount: Decimal)
        ensures
            amount@ == 0,
    {
        Decimal { hundredths: 0 }
    }

    /// The amount of `hundredths` hundredths of a unit.
    pub fn from_hundredths(hundredths: i64) -> (amount: Decimal)
        ensures
            amount@ == hundredths,
    {
        Decimal { hundredths }
    }

    /// Whether the amount is exactly nothing.
    pub fn is_zero(&self) -> (zero: bool)
        ensures
            zero == (self@ == 0),
    {
        self.hundredths == 0
    }
}

} // verus!
