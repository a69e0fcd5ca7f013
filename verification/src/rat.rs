//! Exact rational scalars: an integer numerator over a strictly positive
//! integer denominator. Two representations denote the same value exactly
//! when cross-multiplication agrees.

use vstd::prelude::*;

verus! {

/// The ghost (unbounded) value of a rational scalar.
pub struct RatV {
    pub num: int,
    pub den: int,
}

/// Well-formed: the denominator is strictly positive.
pub open spec fn rat_wf(r: RatV) -> bool {
    r.den >= 1
}

/// Two rationals denote the same value: `a.num / a.den == b.num / b.den`,
/// stated by cross-multiplication so no division is needed.
pub open spec fn rat_eq(a: RatV, b: RatV) -> bool {
    a.num * b.den == b.num * a.den
}

/// Exact rational addition: cross-multiplied numerators over the product
/// of the denominators.
pub open spec fn rat_add(a: RatV, b: RatV) -> RatV {
    RatV { num: a.num * b.den + b.num * a.den, den: a.den * b.den }
}

/// Largest magnitude accepted by the executable comparison: the
/// cross-products must fit in an `i128`.
pub const LIN_BOUND: i128 = 0x4000_0000_0000_0000;

/// An executable rational scalar.
#[derive(Clone, Copy, Debug, PartialEq, Eq, Structural)]
pub struct Rat {
    pub num: i128,
    pub den: i128,
}

impl View for Rat {
    type V = RatV;

    open spec fn view(&self) -> RatV {
        RatV { num: self.num as int, den: self.den as int }
    }
}

/// All magnitudes of the scalar lie within `b` (and the denominator is
/// positive), so products computed from it stay within machine range.
pub open spec fn rat_bounded(r: RatV, b: int) -> bool {
    &&& -b <= r.num <= b
    &&& 1 <= r.den <= b
}

impl Rat {
    /// Well-formed: the denominator is strictly positive.
    pub open spec fn wf(self) -> bool {
        rat_wf(self@)
    }

    /// Builds `num / den`, rejecting a non-positive denominator.
    pub fn new(num: i128, den: i128) -> (r: Option<Rat>)
        ensures
            r is Some <==> den >= 1,
            r is Some ==> r->0@ == (RatV { num: num as int, den: den as int }),
            r is Some ==> r->0.wf(),
    {
        if den >= 1 {
            Some(Rat { num, den })
        } else {
            None
        }
    }

    /// Builds the integer `num`, as the rational `num / 1`.
    pub fn from_int(num: i128) -> (r: Rat)
        ensures
            r@ == (RatV { num: num as int, den: 1 as int }),
            r.wf(),
    {
        Rat { num, den: 1 }
    }

    /// Whether every magnitude lies within `b`.
    pub fn is_bounded(&self, b: i128) -> (r: bool)
        requires
            b >= 0,
        ensures
            r == rat_bounded(self@, b as int),
    {
        -b <= self.num && self.num <= b && 1 <= self.den && self.den <= b
    }

    /// Exact value comparison by cross-multiplication.
    pub fn eq_rat(&self, other: &Rat) -> (r: bool)
        requires
            rat_bounded(self@, LIN_BOUND as int),
            rat_bounded(other@, LIN_BOUND as int),
        ensures
            r == rat_eq(self@, other@),
    {
        proof {
            lemma_mul_bound(self.num as int, other.den as int, LIN_BOUND as int, LIN_BOUND as int);
            lemma_mul_bound(other.num as int, self.den as int, LIN_BOUND as int, LIN_BOUND as int);
        }
        self.num * other.den == other.num * self.den
    }
}

/// A product of two bounded factors is bounded by the product of the bounds.
pub proof fn lemma_mul_bound(a: int, b: int, ab: int, bb: int)
    by (nonlinear_arith)
    requires
        -ab <= a <= ab,
        -bb <= b <= bb,
        0 <= ab,
        0 <= bb,
    ensures
        -(ab * bb) <= a * b <= ab * bb,
{
}

} // verus!
