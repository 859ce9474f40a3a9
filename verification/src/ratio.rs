//! Exact rational numbers.

use vstd::prelude::*;

verus! {

/// The mathematical fraction `num / den`.
///
/// The pair is kept as given: `1/2` and `2/4` are different fractions,
/// though they denote the same number.
pub struct Fraction {
    pub num: int,
    pub den: int,
}

impl Fraction {
    /// A fraction denotes a number exactly when its denominator is positive.
    pub open spec fn well_formed(self) -> bool {
        self.den > 0
    }

    /// The number denoted by `self` is at most the one denoted by `other`.
    pub open spec fn at_most(self, other: Fraction) -> bool {
        self.num * other.den <= other.num * self.den
    }

    /// The number denoted by `self` lies in the closed interval from 0 to 1.
    pub open spec fn in_unit_interval(self) -> bool {
        0 <= self.num <= self.den
    }

    /// The whole number `n`, as `n / 1`.
    pub open spec fn whole(n: int) -> Fraction {
        Fraction { num: n, den: 1 }
    }
}

/// A fraction held in machine integers.
#[derive(Clone, Copy, Debug, PartialEq, Eq, Structural)]
pub struct Ratio {
    pub num: i128,
    pub den: u128,
}

impl View for Ratio {
    type V = Fraction;

    open spec fn view(&self) -> Fraction {
        Fraction { num: self.num as int, den: self.den as int }
    }
}

impl DeepView for Ratio {
    type V = Fraction;

    open spec fn deep_view(&self) -> Fraction {
        self@
    }
}

impl Ratio {
    /// The whole number `n`, as `n / 1`.
    pub fn whole(n: i128) -> (r: Ratio)
        ensures
            r@ == Fraction::whole(n as int),
    {
        Ratio { num: n, den: 1 }
    }
}

/// A well-formed fraction lies in the unit interval exactly when it lies
/// between `0 / 1` and `1 / 1` in the order on the numbers denoted.
pub proof fn lemma_unit_interval_bounds(f: Fraction)
    requires
        f.well_formed(),
    ensures
        f.in_unit_interval() <==> (Fraction::whole(0).at_most(f) && f.at_most(Fraction::whole(1))),
{
    assert(0 * f.den == 0 && f.num * 1 == f.num && 1 * f.den == f.den) by (nonlinear_arith);
}

} // verus!
