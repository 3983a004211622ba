//! Exact ratios of integers.

use vstd::prelude::*;

verus! {

/// The ratio `num / den`, kept as it was computed: not reduced, so that a
/// caller can read both parts back.
#[derive(Clone, Copy, Debug, PartialEq, Eq, Structural)]
pub struct Fraction {
    pub num: i128,
    pub den: i128,
}

impl Fraction {
    /// The denominator is positive, so the ratio has a value and its sign is
    /// that of the numerator.
    pub open spec fn wf(self) -> bool {
        self.den > 0
    }

    /// The ratio lies between 0 and 1, both included.
    pub open spec fn is_proper(self) -> bool {
        self.wf() && 0 <= self.num <= self.den
    }

    /// The ratio 0/1.
    pub fn zero() -> (f: Fraction)
        ensures
            f == (Fraction { num: 0, den: 1 }),
    {
        Fraction { num: 0, den: 1 }
    }

    /// The ratio 1/1.
    pub fn one() -> (f: Fraction)
        ensures
            f == (Fraction { num: 1, den: 1 }),
    {
        Fraction { num: 1, den: 1 }
    }

    /// The ratio 1/2.
    pub fn half() -> (f: Fraction)
        ensures
            f == (Fraction { num: 1, den: 2 }),
    {
        Fraction { num: 1, den: 2 }
    }
}

} // verus!
