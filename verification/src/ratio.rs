//! Exact fractions.
//!
//! Every length, angle and colour level that a renderer produces is a
//! fraction of two integers, so that a frame is described without rounding.
//! Turning a fraction into a floating-point number is left to whoever paints.

use vstd::prelude::*;

verus! {

/// The fraction `num / den`.
///
/// Two fractions are `==` when numerator and denominator agree; use
/// [`Ratio::equals`] to compare the numbers they stand for.
#[derive(Clone, Copy, Debug, PartialEq, Eq, Structural)]
pub struct Ratio {
    pub num: i64,
    pub den: i64,
}

impl Ratio {
    /// A fraction is well formed when its denominator is positive.
    pub open spec fn wf(self) -> bool {
        self.den > 0
    }

    /// `self` and `other` stand for the same number.
    pub open spec fn same_value(self, other: Ratio) -> bool {
        self.num * other.den == other.num * self.den
    }

    /// The fraction `num / den`.
    pub fn new(num: i64, den: i64) -> (r: Ratio)
        requires
            den > 0,
        ensures
            r == (Ratio { num, den }),
            r.wf(),
    {
        Ratio { num, den }
    }

    /// The whole number `n`.
    pub fn whole(n: i64) -> (r: Ratio)
        ensures
            r == (Ratio { num: n, den: 1 }),
            r.wf(),
    {
        Ratio { num: n, den: 1 }
    }

    /// Whether `self` and `other` stand for the same number.
    pub fn equals(self, other: Ratio) -> (same: bool)
        ensures
            same == self.same_value(other),
    {
        let a: i128 = self.num as i128;
        let b: i128 = other.den as i128;
        let c: i128 = other.num as i128;
        let d: i128 = self.den as i128;
        proof {
            lemma_product_fits(a as int, b as int);
            lemma_product_fits(c as int, d as int);
        }
        a * b == c * d
    }
}

/// The product of two 64-bit integers fits in 128 bits.
proof fn lemma_product_fits(a: int, b: int)
    requires
        i64::MIN <= a <= i64::MAX,
        i64::MIN <= b <= i64::MAX,
    ensures
        i128::MIN <= a * b <= i128::MAX,
{
    assert(-0x4000_0000_0000_0000_0000_0000_0000_0000 <= a * b
        <= 0x4000_0000_0000_0000_0000_0000_0000_0000) by (nonlinear_arith)
        requires
            -0x8000_0000_0000_0000 <= a <= 0x8000_0000_0000_0000,
            -0x8000_0000_0000_0000 <= b <= 0x8000_0000_0000_0000,
    ;
}

} // verus!
