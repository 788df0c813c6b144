//! Fixed-point quantities.
use vstd::prelude::*;

verus! {

/// How many millionths make one unit.
pub const MICROS_PER_UNIT: u128 = 1_000_000;

/// A non-negative quantity with six decimal places, held as a count of
/// millionths of its unit. The unit is that of the field holding the amount:
/// floating-point operations, kilowatt-hours, kilograms, percent.
///
/// All comparisons and sums over amounts are exact: they are taken in the
/// integers, never in a rounded representation.
#[derive(Clone, Copy, Debug, PartialEq, Eq, Structural, PartialOrd, Ord, Hash)]
pub struct Amount {
    pub micros: u128,
}

impl Amount {
    /// The amount of `units` whole units, as a count of millionths.
    pub open spec fn units(units: int) -> int {
        units * 1_000_000
    }

    /// The amount that counts `micros` millionths.
    pub fn from_micros(micros: u128) -> (r: Amount)
        ensures
            r.micros == micros,
    {
        Amount { micros }
    }

    /// The amount of `units` whole units.
    pub fn from_units(units: u64) -> (r: Amount)
        ensures
            r.micros == Amount::units(units as int),
    {
        let wide: u128 = units as u128;
        Amount { micros: wide * MICROS_PER_UNIT }
    }

    /// The empty amount.
    pub fn zero() -> (r: Amount)
        ensures
            r.micros == 0,
    {
        Amount { micros: 0 }
    }

    /// Strict order: `self < other`.
    pub fn is_below(&self, other: &Amount) -> (r: bool)
        ensures
            r == (self.micros < other.micros),
    {
        self.micros < other.micros
    }

    /// Closed order: `self <= other`.
    pub fn is_at_most(&self, other: &Amount) -> (r: bool)
        ensures
            r == (self.micros <= other.micros),
    {
        self.micros <= other.micros
    }

    /// The larger of two amounts.
    pub fn larger_of(self, other: Amount) -> (r: Amount)
        ensures
            r.micros >= self.micros,
            r.micros >= other.micros,
            r == self || r == other,
    {
        if self.micros >= other.micros {
            self
        } else {
            other
        }
    }

    /// Whether `self + extra <= limit`, the sum taken exactly. The bound is
    /// closed: a sum that meets the limit fits.
    pub fn fits_with(&self, extra: &Amount, limit: &Amount) -> (r: bool)
        ensures
            r == (self.micros + extra.micros <= limit.micros),
    {
        match self.micros.checked_add(extra.micros) {
            Some(total) => total <= limit.micros,
            None => false,
        }
    }

    /// `self + other`, or `None` where the sum cannot be held.
    pub fn checked_add(&self, other: &Amount) -> (r: Option<Amount>)
        ensures
            r matches Some(sum) ==> sum.micros == self.micros + other.micros,
            r is Some <==> self.micros + other.micros <= u128::MAX,
    {
        match self.micros.checked_add(other.micros) {
            Some(total) => Some(Amount { micros: total }),
            None => None,
        }
    }

    /// `self - other`, or `None` where `other` is the larger.
    pub fn checked_sub(&self, other: &Amount) -> (r: Option<Amount>)
        ensures
            r matches Some(rest) ==> rest.micros == self.micros - other.micros,
            r is Some <==> other.micros <= self.micros,
    {
        if other.micros <= self.micros {
            Some(Amount { micros: self.micros - other.micros })
        } else {
            None
        }
    }
}

} // verus!
