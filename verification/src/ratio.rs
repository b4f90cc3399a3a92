//! Exact numbers.
//!
//! Every quantity that ends up on the graphics card as a single-precision
//! number is held here as a fraction of two integers, so that the geometry
//! can be reasoned about without rounding. Dividing the numerator by the
//! denominator in single precision gives the nearest representable number.

use vstd::prelude::*;

verus! {

/// The fraction `num / den`.
#[derive(Clone, Copy, Debug, PartialEq, Eq, Structural)]
pub struct Ratio {
    pub num: i32,
    pub den: i32,
}

impl Ratio {
    /// A fraction is well formed when its denominator is positive.
    pub open spec fn wf(self) -> bool {
        self.den > 0
    }

    /// The number multiplied by `k`, rounded down; exact where `den` divides `num * k`.
    pub open spec fn times(self, k: int) -> int {
        (self.num * k) / (self.den as int)
    }

    /// The fraction `num / den`, well formed where `den` is positive.
    pub fn new(num: i32, den: i32) -> (r: Ratio)
        ensures
            r == (Ratio { num, den }),
            r.wf() == (den > 0),
    {
        Ratio { num, den }
    }

    /// The whole number `n`.
    pub fn whole(n: i32) -> (r: Ratio)
        ensures
            r == (Ratio { num: n, den: 1 }),
            r.wf(),
    {
        Ratio { num: n, den: 1 }
    }
}

} // verus!
