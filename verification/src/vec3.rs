//! Three-component vectors over exact rationals: a numerator triple over one
//! shared, strictly positive denominator. Addition, subtraction, scaling,
//! dot products and squared distances are all exact; two representations
//! denote the same point exactly when cross-multiplication agrees.

use vstd::prelude::*;
use crate::rat::{Rat, RatV, lemma_mul_bound, LIN_BOUND};

verus! {

/// The ghost (unbounded) value of a vector: `(x, y, z) / den`.
pub struct Vec3V {
    pub x: int,
    pub y: int,
    pub z: int,
    pub den: int,
}

/// Well-formed: the denominator is strictly positive.
pub open spec fn vec_wf(v: Vec3V) -> bool {
    v.den >= 1
}

/// All numerator magnitudes and the denominator lie within `b`.
pub open spec fn vec_bounded(v: Vec3V, b: int) -> bool {
    &&& -b <= v.x <= b
    &&& -b <= v.y <= b
    &&& -b <= v.z <= b
    &&& 1 <= v.den <= b
}

/// Exact vector sum: cross-multiplied numerators over the product of the
/// denominators.
pub open spec fn vadd(a: Vec3V, b: Vec3V) -> Vec3V {
    Vec3V {
        x: a.x * b.den + b.x * a.den,
        y: a.y * b.den + b.y * a.den,
        z: a.z * b.den + b.z * a.den,
        den: a.den * b.den,
    }
}

/// Exact vector difference.
pub open spec fn vsub(a: Vec3V, b: Vec3V) -> Vec3V {
    Vec3V {
        x: a.x * b.den - b.x * a.den,
        y: a.y * b.den - b.y * a.den,
        z: a.z * b.den - b.z * a.den,
        den: a.den * b.den,
    }
}

/// Exact scaling by a rational scalar.
pub open spec fn vscale(v: Vec3V, s: RatV) -> Vec3V {
    Vec3V { x: v.x * s.num, y: v.y * s.num, z: v.z * s.num, den: v.den * s.den }
}

/// The two representations denote the same point: cross-multiplication
/// agrees in every component.
pub open spec fn same_pt(a: Vec3V, b: Vec3V) -> bool {
    &&& a.x * b.den == b.x * a.den
    &&& a.y * b.den == b.y * a.den
    &&& a.z * b.den == b.z * a.den
}

/// The zero vector (in any representation).
pub open spec fn vec_is_zero(v: Vec3V) -> bool {
    v.x == 0 && v.y == 0 && v.z == 0
}

/// Numerator of the squared length; the denominator is `v.den * v.den`.
pub open spec fn norm_sq_num(v: Vec3V) -> int {
    v.x * v.x + v.y * v.y + v.z * v.z
}

/// Unit length, exactly: `|v|^2 == 1`, i.e. the numerator triple has squared
/// length equal to the squared denominator.
pub open spec fn vec_is_unit(v: Vec3V) -> bool {
    norm_sq_num(v) == v.den * v.den
}

/// Numerator of the dot product of the numerator triples; used with the
/// denominators of both vectors where a value (not just zero) is needed.
pub open spec fn dot_num(a: Vec3V, b: Vec3V) -> int {
    a.x * b.x + a.y * b.y + a.z * b.z
}

/// Numerator of the exact squared distance between two points; the
/// denominator is `(a.den * b.den)^2`.
pub open spec fn dist_sq_num(a: Vec3V, b: Vec3V) -> int {
    norm_sq_num(vsub(a, b))
}

/// The squared distance between `a1` and `b1` equals, as an exact rational,
/// the squared distance between `a2` and `b2`: cross-multiplied equality of
/// `dist^2(a1,b1) / (a1.den * b1.den)^2` and `dist^2(a2,b2) / (a2.den * b2.den)^2`.
pub open spec fn dist_sq_eq(a1: Vec3V, b1: Vec3V, a2: Vec3V, b2: Vec3V) -> bool {
    dist_sq_num(a1, b1) * ((a2.den * b2.den) * (a2.den * b2.den))
        == dist_sq_num(a2, b2) * ((a1.den * b1.den) * (a1.den * b1.den))
}

/// Bound accepted by the executable squared-distance and unit tests: fourth
/// powers of these magnitudes still fit in an `i128`.
pub const DIST_BOUND: i128 = 0x4000_0000;

/// Bound on magnitudes that a mid-tick value may reach: the translation
/// step still goes through exactly on such a value.
pub const WIDE_BOUND: i128 = 0x1_0000_0000_0000_0000_0000_0000;

/// Bound on the displacement handed to the wide addition.
pub const DELTA_BOUND: i128 = 0x2000_0000;

/// A perfect square: some non-negative integer squares to it.
pub open spec fn is_perfect_square(n: int) -> bool {
    exists|k: int| 0 <= k && #[trigger] (k * k) == n
}

/// Squaring is monotone on non-negative integers.
pub proof fn lemma_square_monotone(a: int, b: int)
    by (nonlinear_arith)
    requires
        0 <= a <= b,
    ensures
        a * a <= b * b,
{
}

/// The exact integer square root, by bisection.
pub fn isqrt(n: i128) -> (r: i128)
    requires
        0 <= n < 0x4000_0000_0000_0000,
    ensures
        0 <= r,
        r * r <= n,
        n < (r + 1) * (r + 1),
{
    let mut lo: i128 = 0;
    let mut hi: i128 = 0x8000_0000;
    proof {
        assert((0x8000_0000 as int) * (0x8000_0000 as int) == 0x4000_0000_0000_0000) by (nonlinear_arith);
    }
    while lo + 1 < hi
        invariant
            0 <= lo < hi <= 0x8000_0000,
            lo * lo <= n,
            n < hi * hi,
        decreases hi - lo,
    {
        let mid = lo + (hi - lo) / 2;
        proof {
            lemma_mul_bound(mid as int, mid as int, 0x8000_0000, 0x8000_0000);
        }
        if mid * mid <= n {
            lo = mid;
        } else {
            hi = mid;
        }
    }
    lo
}

/// A square is non-negative, and the square of a non-zero integer is at
/// least one.
pub proof fn lemma_square_sign(a: int)
    by (nonlinear_arith)
    ensures
        a * a >= 0,
        a != 0 ==> a * a >= 1,
{
}

/// On a perfect square, bisection finds the exact root.
pub proof fn lemma_isqrt_exact(n: int, r: int)
    requires
        is_perfect_square(n),
        0 <= r,
        r * r <= n,
        n < (r + 1) * (r + 1),
    ensures
        r * r == n,
{
    let k = choose|k: int| 0 <= k && #[trigger] (k * k) == n;
    if k > r {
        lemma_square_monotone(r + 1, k);
    } else {
        lemma_square_monotone(k, r);
    }
}

/// Decides outright whether `n` is a perfect square.
pub fn check_perfect_square(n: i128) -> (r: bool)
    requires
        0 <= n < 0x4000_0000_0000_0000,
    ensures
        r == is_perfect_square(n as int),
{
    let k = isqrt(n);
    if k * k == n {
        proof {
            assert(0 <= k as int && (k as int) * (k as int) == n as int);
        }
        true
    } else {
        proof {
            assert forall|j: int| !(0 <= j && #[trigger] (j * j) == n as int) by {
                if 0 <= j {
                    if j <= k as int {
                        lemma_square_monotone(j, k as int);
                    } else {
                        lemma_square_monotone(k as int + 1, j);
                    }
                }
            };
        }
        false
    }
}

/// An executable exact vector.
#[derive(Clone, Copy, Debug, PartialEq, Eq, Structural)]
pub struct Vec3 {
    pub x: i128,
    pub y: i128,
    pub z: i128,
    pub den: i128,
}

impl View for Vec3 {
    type V = Vec3V;

    open spec fn view(&self) -> Vec3V {
        Vec3V { x: self.x as int, y: self.y as int, z: self.z as int, den: self.den as int }
    }
}

impl Vec3 {
    /// Well-formed: the denominator is strictly positive.
    pub open spec fn wf(self) -> bool {
        vec_wf(self@)
    }

    /// All numerator magnitudes and the denominator lie within `b`.
    pub open spec fn bounded(self, b: int) -> bool {
        vec_bounded(self@, b)
    }

    /// Builds `(x, y, z) / den`, rejecting a non-positive denominator.
    pub fn new(x: i128, y: i128, z: i128, den: i128) -> (r: Option<Vec3>)
        ensures
            r is Some <==> den >= 1,
            r is Some ==> r->0@ == (Vec3V {
                x: x as int,
                y: y as int,
                z: z as int,
                den: den as int,
            }),
            r is Some ==> r->0.wf(),
    {
        if den >= 1 {
            Some(Vec3 { x, y, z, den })
        } else {
            None
        }
    }

    /// Builds the integer-coordinate vector `(x, y, z)`.
    pub fn from_ints(x: i128, y: i128, z: i128) -> (r: Vec3)
        ensures
            r@ == (Vec3V { x: x as int, y: y as int, z: z as int, den: 1 as int }),
            r.wf(),
    {
        Vec3 { x, y, z, den: 1 }
    }

    /// The zero vector.
    pub fn zero() -> (r: Vec3)
        ensures
            r@ == (Vec3V { x: 0 as int, y: 0 as int, z: 0 as int, den: 1 as int }),
            r.wf(),
            vec_is_zero(r@),
    {
        Vec3 { x: 0, y: 0, z: 0, den: 1 }
    }

    /// Exact vector sum.
    pub fn add(&self, other: &Vec3) -> (r: Vec3)
        requires
            self.bounded(LIN_BOUND as int),
            other.bounded(LIN_BOUND as int),
        ensures
            r@ == vadd(self@, other@),
            r.wf(),
    {
        proof {
            lemma_vadd_products(self@, other@);
        }
        Vec3 {
            x: self.x * other.den + other.x * self.den,
            y: self.y * other.den + other.y * self.den,
            z: self.z * other.den + other.z * self.den,
            den: self.den * other.den,
        }
    }

    /// Exact vector sum for mid-tick magnitudes: the point may be as
    /// large as a rotation leaves it, the displacement stays small.
    pub fn add_wide(&self, other: &Vec3) -> (r: Vec3)
        requires
            self.bounded(WIDE_BOUND as int),
            other.bounded(DELTA_BOUND as int),
        ensures
            r@ == vadd(self@, other@),
            r.wf(),
    {
        proof {
            let wb = WIDE_BOUND as int;
            let db = DELTA_BOUND as int;
            lemma_mul_bound(self@.x, other@.den, wb, db);
            lemma_mul_bound(self@.y, other@.den, wb, db);
            lemma_mul_bound(self@.z, other@.den, wb, db);
            lemma_mul_bound(other@.x, self@.den, db, wb);
            lemma_mul_bound(other@.y, self@.den, db, wb);
            lemma_mul_bound(other@.z, self@.den, db, wb);
            lemma_mul_bound(self@.den, other@.den, wb, db);
            assert(self@.den * other@.den >= 1) by (nonlinear_arith)
                requires
                    self@.den >= 1,
                    other@.den >= 1,
            ;
        }
        Vec3 {
            x: self.x * other.den + other.x * self.den,
            y: self.y * other.den + other.y * self.den,
            z: self.z * other.den + other.z * self.den,
            den: self.den * other.den,
        }
    }

    /// Exact vector difference.
    pub fn sub(&self, other: &Vec3) -> (r: Vec3)
        requires
            self.bounded(LIN_BOUND as int),
            other.bounded(LIN_BOUND as int),
        ensures
            r@ == vsub(self@, other@),
            r.wf(),
    {
        proof {
            lemma_vadd_products(self@, other@);
        }
        Vec3 {
            x: self.x * other.den - other.x * self.den,
            y: self.y * other.den - other.y * self.den,
            z: self.z * other.den - other.z * self.den,
            den: self.den * other.den,
        }
    }

    /// Exact scaling by a rational scalar.
    pub fn scale(&self, s: &Rat) -> (r: Vec3)
        requires
            self.bounded(LIN_BOUND as int),
            crate::rat::rat_bounded(s@, LIN_BOUND as int),
        ensures
            r@ == vscale(self@, s@),
            r.wf(),
    {
        proof {
            lemma_mul_bound(self.x as int, s.num as int, LIN_BOUND as int, LIN_BOUND as int);
            lemma_mul_bound(self.y as int, s.num as int, LIN_BOUND as int, LIN_BOUND as int);
            lemma_mul_bound(self.z as int, s.num as int, LIN_BOUND as int, LIN_BOUND as int);
            lemma_mul_bound(self.den as int, s.den as int, LIN_BOUND as int, LIN_BOUND as int);
            assert(self.den as int * s.den as int >= 1) by (nonlinear_arith)
                requires
                    self.den as int >= 1,
                    s.den as int >= 1,
            ;
        }
        Vec3 {
            x: self.x * s.num,
            y: self.y * s.num,
            z: self.z * s.num,
            den: self.den * s.den,
        }
    }

    /// Exact negation.
    pub fn neg(&self) -> (r: Vec3)
        requires
            self.bounded(LIN_BOUND as int),
        ensures
            r@ == (Vec3V { x: -self@.x, y: -self@.y, z: -self@.z, den: self@.den }),
            r.wf(),
    {
        Vec3 { x: -self.x, y: -self.y, z: -self.z, den: self.den }
    }

    /// Whether every magnitude lies within `b`.
    pub fn is_bounded(&self, b: i128) -> (r: bool)
        requires
            b >= 0,
        ensures
            r == vec_bounded(self@, b as int),
    {
        -b <= self.x && self.x <= b && -b <= self.y && self.y <= b && -b <= self.z && self.z <= b
            && 1 <= self.den && self.den <= b
    }

    /// Whether this is the zero vector.
    pub fn is_zero(&self) -> (r: bool)
        ensures
            r == vec_is_zero(self@),
    {
        self.x == 0 && self.y == 0 && self.z == 0
    }

    /// Whether this vector has exactly unit length.
    pub fn is_unit(&self) -> (r: bool)
        requires
            self.bounded(DIST_BOUND as int),
        ensures
            r == vec_is_unit(self@),
    {
        proof {
            lemma_mul_bound(self.x as int, self.x as int, DIST_BOUND as int, DIST_BOUND as int);
            lemma_mul_bound(self.y as int, self.y as int, DIST_BOUND as int, DIST_BOUND as int);
            lemma_mul_bound(self.z as int, self.z as int, DIST_BOUND as int, DIST_BOUND as int);
            lemma_mul_bound(self.den as int, self.den as int, DIST_BOUND as int, DIST_BOUND as int);
        }
        self.x * self.x + self.y * self.y + self.z * self.z == self.den * self.den
    }

    /// Exact squared distance to another point, as a rational.
    pub fn dist_sq(&self, other: &Vec3) -> (r: Rat)
        requires
            self.bounded(DIST_BOUND as int),
            other.bounded(DIST_BOUND as int),
        ensures
            r@.num == dist_sq_num(self@, other@),
            r@.den == (self@.den * other@.den) * (self@.den * other@.den),
            r.wf(),
    {
        proof {
            lemma_vadd_products(self@, other@);
            lemma_dist_products(self@, other@, DIST_BOUND as int);
        }
        let dx = self.x * other.den - other.x * self.den;
        let dy = self.y * other.den - other.y * self.den;
        let dz = self.z * other.den - other.z * self.den;
        let dd = self.den * other.den;
        Rat { num: dx * dx + dy * dy + dz * dz, den: dd * dd }
    }

    /// The two vectors denote the same point.
    pub fn same_point(&self, other: &Vec3) -> (r: bool)
        requires
            self.bounded(LIN_BOUND as int),
            other.bounded(LIN_BOUND as int),
        ensures
            r == same_pt(self@, other@),
    {
        proof {
            lemma_vadd_products(self@, other@);
        }
        self.x * other.den == other.x * self.den
            && self.y * other.den == other.y * self.den
            && self.z * other.den == other.z * self.den
    }
}

/// The cross-products formed by `vadd`/`vsub` of two vectors within
/// `LIN_BOUND` stay within machine range.
proof fn lemma_vadd_products(a: Vec3V, b: Vec3V)
    requires
        vec_bounded(a, LIN_BOUND as int),
        vec_bounded(b, LIN_BOUND as int),
    ensures
        -(LIN_BOUND as int * LIN_BOUND as int) <= a.x * b.den <= LIN_BOUND as int * LIN_BOUND as int,
        -(LIN_BOUND as int * LIN_BOUND as int) <= a.y * b.den <= LIN_BOUND as int * LIN_BOUND as int,
        -(LIN_BOUND as int * LIN_BOUND as int) <= a.z * b.den <= LIN_BOUND as int * LIN_BOUND as int,
        -(LIN_BOUND as int * LIN_BOUND as int) <= b.x * a.den <= LIN_BOUND as int * LIN_BOUND as int,
        -(LIN_BOUND as int * LIN_BOUND as int) <= b.y * a.den <= LIN_BOUND as int * LIN_BOUND as int,
        -(LIN_BOUND as int * LIN_BOUND as int) <= b.z * a.den <= LIN_BOUND as int * LIN_BOUND as int,
        1 <= a.den * b.den <= LIN_BOUND as int * LIN_BOUND as int,
{
    let lb = LIN_BOUND as int;
    lemma_mul_bound(a.x, b.den, lb, lb);
    lemma_mul_bound(a.y, b.den, lb, lb);
    lemma_mul_bound(a.z, b.den, lb, lb);
    lemma_mul_bound(b.x, a.den, lb, lb);
    lemma_mul_bound(b.y, a.den, lb, lb);
    lemma_mul_bound(b.z, a.den, lb, lb);
    lemma_mul_bound(a.den, b.den, lb, lb);
    assert(a.den * b.den >= 1) by (nonlinear_arith)
        requires
            a.den >= 1,
            b.den >= 1,
    ;
}

/// The squares formed by `dist_sq` of two vectors within `DIST_BOUND` stay
/// within machine range.
proof fn lemma_dist_products(a: Vec3V, b: Vec3V, db: int)
    requires
        vec_bounded(a, db),
        vec_bounded(b, db),
        0 <= db,
    ensures
        -(4 * (db * db) * (db * db)) <= (a.x * b.den - b.x * a.den) * (a.x * b.den - b.x * a.den)
            <= 4 * (db * db) * (db * db),
        -(4 * (db * db) * (db * db)) <= (a.y * b.den - b.y * a.den) * (a.y * b.den - b.y * a.den)
            <= 4 * (db * db) * (db * db),
        -(4 * (db * db) * (db * db)) <= (a.z * b.den - b.z * a.den) * (a.z * b.den - b.z * a.den)
            <= 4 * (db * db) * (db * db),
        1 <= (a.den * b.den) * (a.den * b.den) <= (db * db) * (db * db),
{
    lemma_mul_bound(a.x, b.den, db, db);
    lemma_mul_bound(a.y, b.den, db, db);
    lemma_mul_bound(a.z, b.den, db, db);
    lemma_mul_bound(b.x, a.den, db, db);
    lemma_mul_bound(b.y, a.den, db, db);
    lemma_mul_bound(b.z, a.den, db, db);
    lemma_mul_bound(a.x * b.den - b.x * a.den, a.x * b.den - b.x * a.den, 2 * (db * db), 2 * (db * db));
    lemma_mul_bound(a.y * b.den - b.y * a.den, a.y * b.den - b.y * a.den, 2 * (db * db), 2 * (db * db));
    lemma_mul_bound(a.z * b.den - b.z * a.den, a.z * b.den - b.z * a.den, 2 * (db * db), 2 * (db * db));
    lemma_mul_bound(a.den, b.den, db, db);
    lemma_mul_bound(a.den * b.den, a.den * b.den, db * db, db * db);
    assert(a.den * b.den >= 1) by (nonlinear_arith)
        requires
            a.den >= 1,
            b.den >= 1,
    ;
    assert((a.den * b.den) * (a.den * b.den) >= 1) by (nonlinear_arith)
        requires
            a.den * b.den >= 1,
    ;
    assert(2 * (db * db) * (2 * (db * db)) == 4 * (db * db) * (db * db)) by (nonlinear_arith);
}

} // verus!
