//! Non-negative rational numbers kept as a numerator over a positive denominator.

use vstd::prelude::*;

verus! {

/// The fraction `num / den`; denominators used by this crate are never zero.
#[derive(Clone, Copy, Debug, PartialEq, Eq, Structural)]
pub struct Ratio {
    pub num: u32,
    pub den: u32,
}

/// `a * b` without overflow.
fn cross(a: u32, b: u32) -> (r: u64)
    ensures
        r == a * b,
{
    assert(a * b <= 0xffff_ffffu64 * 0xffff_ffffu64) by (nonlinear_arith)
        requires
            a <= 0xffff_ffffu64,
            b <= 0xffff_ffffu64,
    ;
    (a as u64) * (b as u64)
}

impl Ratio {
    /// A fraction is meaningful when its denominator is positive.
    pub open spec fn valid(self) -> bool {
        self.den > 0
    }

    /// `self <= other` as rational numbers.
    pub open spec fn le(self, other: Ratio) -> bool {
        self.num * other.den <= other.num * self.den
    }

    /// `self < other` as rational numbers.
    pub open spec fn lt(self, other: Ratio) -> bool {
        self.num * other.den < other.num * self.den
    }

    /// `self` and `other` denote the same rational number.
    pub open spec fn same(self, other: Ratio) -> bool {
        self.num * other.den == other.num * self.den
    }

    /// The value lies in the closed interval [0, 1].
    pub open spec fn in_unit_closed(self) -> bool {
        self.valid() && self.num <= self.den
    }

    /// The value lies in the half-open interval [0, 1).
    pub open spec fn in_unit_open(self) -> bool {
        self.valid() && self.num < self.den
    }

    /// Compares two fractions by value.
    pub fn value_le(&self, other: &Ratio) -> (r: bool)
        ensures
            r == self.le(*other),
    {
        cross(self.num, other.den) <= cross(other.num, self.den)
    }

    /// Whether two fractions denote the same number.
    pub fn value_eq(&self, other: &Ratio) -> (r: bool)
        ensures
            r == self.same(*other),
    {
        cross(self.num, other.den) == cross(other.num, self.den)
    }
}

} // verus!
