//! A mixed fraction: an integer part plus a proper fraction.

use std::cmp::Ordering;
use vstd::prelude::*;
use vstd::std_specs::cmp::PartialOrdSpecImpl;
use vstd::std_specs::convert::FromSpecImpl;

verus! {

/// `trunc + fract_numer / fract_denom`
#[derive(Debug, Clone, Copy, PartialEq, Eq, Structural)]
pub struct MixedFaction(pub u128, pub u128, pub u128);

impl MixedFaction {
    /// the mixed fraction with the integer part `trunc` and the fractional part
    /// `fract_numer / fract_denom`: a zero fractional part is written `0 / 1`
    pub fn from_parts(trunc: u128, fract_numer: u128, fract_denom: u128) -> (r: Self)
        ensures
            r == (if fract_numer == 0 {
                MixedFaction(trunc, 0, 1)
            } else {
                MixedFaction(trunc, fract_numer, fract_denom)
            }),
    {
        if fract_numer == 0 {
            MixedFaction(trunc, 0, 1)
        } else {
            MixedFaction(trunc, fract_numer, fract_denom)
        }
    }

    /// the integer part of the value
    pub fn trunc(&self) -> (r: u128)
        ensures
            r == self.0,
    {
        self.0
    }

    /// the numerator of the fractional part
    pub fn fract_numer(&self) -> (r: u128)
        ensures
            r == self.1,
    {
        self.1
    }

    /// the denominator of the fractional part
    pub fn fract_denom(&self) -> (r: u128)
        ensures
            r == self.2,
    {
        self.2
    }
}

impl From<u128> for MixedFaction {
    /// a whole number: no fractional part
    fn from(value: u128) -> (r: Self) {
        MixedFaction(value, 0, 1)
    }
}

impl FromSpecImpl<u128> for MixedFaction {
    open spec fn obeys_from_spec() -> bool {
        true
    }

    open spec fn from_spec(value: u128) -> Self {
        MixedFaction(value, 0, 1)
    }
}

/// orders `a` and `b` as numbers do
pub open spec fn order_u128(a: u128, b: u128) -> Ordering {
    if a < b {
        Ordering::Less
    } else if a > b {
        Ordering::Greater
    } else {
        Ordering::Equal
    }
}

/// the fields compared in turn: the integer part, then the fraction's numerator, then its
/// denominator
pub open spec fn lexical_order(a: MixedFaction, b: MixedFaction) -> Ordering {
    if a.0 != b.0 {
        order_u128(a.0, b.0)
    } else if a.1 != b.1 {
        order_u128(a.1, b.1)
    } else {
        order_u128(a.2, b.2)
    }
}

impl PartialOrd for MixedFaction {
    /// compares the integer parts, then the fractions' numerators, then their denominators
    fn partial_cmp(&self, other: &Self) -> (r: Option<Ordering>) {
        if self.0 < other.0 {
            Some(Ordering::Less)
        } else if self.0 > other.0 {
            Some(Ordering::Greater)
        } else if self.1 < other.1 {
            Some(Ordering::Less)
        } else if self.1 > other.1 {
            Some(Ordering::Greater)
        } else if self.2 < other.2 {
            Some(Ordering::Less)
        } else if self.2 > other.2 {
            Some(Ordering::Greater)
        } else {
            Some(Ordering::Equal)
        }
    }
}

impl PartialOrdSpecImpl for MixedFaction {
    open spec fn obeys_partial_cmp_spec() -> bool {
        true
    }

    open spec fn partial_cmp_spec(&self, other: &Self) -> Option<Ordering> {
        Some(lexical_order(*self, *other))
    }
}

impl Default for MixedFaction {
    fn default() -> (r: Self)
        ensures
            r == MixedFaction(0, 0, 0),
    {
        MixedFaction(0, 0, 0)
    }
}

} // verus!
