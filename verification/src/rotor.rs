//! Unit rotation operators over exact arithmetic.
//!
//! An `Angle` is an exact cosine/sine pair on a common positive denominator
//! with `cos^2 + sin^2 == den^2`, so it denotes a point on the unit circle.
//! A `Rotor` is a 3x3 integer matrix together with a positive denominator
//! `den` such that `M / den` is orthogonal (`M^T M == den^2 I`); applying it
//! is an exact isometry, which is the root of every rigidity guarantee in
//! this crate. A rotor is built from an axis and an angle through the
//! quaternion `(den + cos, sin * axis)` (or `(0, axis)` for a half turn);
//! the construction validates orthogonality outright, so a well-formed value
//! can never be produced by accident.

use vstd::prelude::*;
use crate::rat::lemma_mul_bound;
use crate::vec3::{Vec3, Vec3V, vec_wf, vec_bounded, vec_is_unit, norm_sq_num, dot_num};

verus! {

/// The ghost value of an exact angle: `cos/den` and `sin/den`.
pub struct AngleV {
    pub cos: int,
    pub sin: int,
    pub den: int,
}

/// Well-formed: positive denominator and the pair lies on the unit circle.
pub open spec fn angle_wf(a: AngleV) -> bool {
    &&& a.den >= 1
    &&& a.cos * a.cos + a.sin * a.sin == a.den * a.den
}

/// All magnitudes of the angle lie within `b`.
pub open spec fn angle_bounded(a: AngleV, b: int) -> bool {
    &&& -b <= a.cos <= b
    &&& -b <= a.sin <= b
    &&& 1 <= a.den <= b
}

/// An executable exact angle.
#[derive(Clone, Copy, Debug, PartialEq, Eq, Structural)]
pub struct Angle {
    pub cos: i128,
    pub sin: i128,
    pub den: i128,
}

impl View for Angle {
    type V = AngleV;

    open spec fn view(&self) -> AngleV {
        AngleV { cos: self.cos as int, sin: self.sin as int, den: self.den as int }
    }
}

impl Angle {
    /// Well-formed: the pair denotes a point on the unit circle.
    pub open spec fn wf(self) -> bool {
        angle_wf(self@)
    }

    /// Builds the angle with cosine `cos/den` and sine `sin/den`, rejecting
    /// pairs that do not lie exactly on the unit circle.
    pub fn new(cos: i128, sin: i128, den: i128) -> (r: Option<Angle>)
        requires
            -0x4000_0000_0000_0000 <= cos <= 0x4000_0000_0000_0000,
            -0x4000_0000_0000_0000 <= sin <= 0x4000_0000_0000_0000,
            -0x4000_0000_0000_0000 <= den <= 0x4000_0000_0000_0000,
        ensures
            r is Some <==> angle_wf(AngleV { cos: cos as int, sin: sin as int, den: den as int }),
            r is Some ==> r->0@ == (AngleV { cos: cos as int, sin: sin as int, den: den as int }),
    {
        proof {
            let b: int = 0x4000_0000_0000_0000;
            lemma_mul_bound(cos as int, cos as int, b, b);
            lemma_mul_bound(sin as int, sin as int, b, b);
            lemma_mul_bound(den as int, den as int, b, b);
        }
        if den >= 1 && cos * cos + sin * sin == den * den {
            Some(Angle { cos, sin, den })
        } else {
            None
        }
    }

    /// The zero angle: cosine one, sine zero.
    pub fn zero() -> (r: Angle)
        ensures
            r@ == (AngleV { cos: 1 as int, sin: 0 as int, den: 1 as int }),
            r.wf(),
    {
        Angle { cos: 1, sin: 0, den: 1 }
    }

    /// The opposite angle: same cosine, negated sine.
    pub fn neg(&self) -> (r: Angle)
        requires
            self.wf(),
            self.cos > i128::MIN,
            self.sin > i128::MIN,
        ensures
            r@ == (AngleV { cos: self@.cos, sin: -self@.sin, den: self@.den }),
            r.wf(),
    {
        proof {
            assert((-self@.sin) * (-self@.sin) == self@.sin * self@.sin) by (nonlinear_arith);
        }
        Angle { cos: self.cos, sin: -self.sin, den: self.den }
    }
}

/// The ghost value of a rotor: the matrix rows `(xx, xy, xz)`, `(yx, yy, yz)`,
/// `(zx, zy, zz)` over the denominator `den`.
pub struct RotorV {
    pub xx: int,
    pub xy: int,
    pub xz: int,
    pub yx: int,
    pub yy: int,
    pub yz: int,
    pub zx: int,
    pub zy: int,
    pub zz: int,
    pub den: int,
}

/// Well-formed: positive denominator, and both the columns and the rows of
/// the matrix are orthogonal with squared length `den^2`, so `M / den` is an
/// exact orthogonal operator.
pub open spec fn rotor_wf(r: RotorV) -> bool {
    &&& r.den >= 1
    // columns orthonormal (scaled)
    &&& r.xx * r.xx + r.yx * r.yx + r.zx * r.zx == r.den * r.den
    &&& r.xy * r.xy + r.yy * r.yy + r.zy * r.zy == r.den * r.den
    &&& r.xz * r.xz + r.yz * r.yz + r.zz * r.zz == r.den * r.den
    &&& r.xx * r.xy + r.yx * r.yy + r.zx * r.zy == 0
    &&& r.xx * r.xz + r.yx * r.yz + r.zx * r.zz == 0
    &&& r.xy * r.xz + r.yy * r.yz + r.zy * r.zz == 0
    // rows orthonormal (scaled)
    &&& r.xx * r.xx + r.xy * r.xy + r.xz * r.xz == r.den * r.den
    &&& r.yx * r.yx + r.yy * r.yy + r.yz * r.yz == r.den * r.den
    &&& r.zx * r.zx + r.zy * r.zy + r.zz * r.zz == r.den * r.den
    &&& r.xx * r.yx + r.xy * r.yy + r.xz * r.yz == 0
    &&& r.xx * r.zx + r.xy * r.zy + r.xz * r.zz == 0
    &&& r.yx * r.zx + r.yy * r.zy + r.yz * r.zz == 0
}

/// All entry magnitudes and the denominator lie within `b`.
pub open spec fn rotor_bounded(r: RotorV, b: int) -> bool {
    &&& -b <= r.xx <= b
    &&& -b <= r.xy <= b
    &&& -b <= r.xz <= b
    &&& -b <= r.yx <= b
    &&& -b <= r.yy <= b
    &&& -b <= r.yz <= b
    &&& -b <= r.zx <= b
    &&& -b <= r.zy <= b
    &&& -b <= r.zz <= b
    &&& 1 <= r.den <= b
}

/// Rotating a direction: the pivot plays no part, only the numerators turn.
pub open spec fn rot_dir(r: RotorV, v: Vec3V) -> Vec3V {
    Vec3V {
        x: r.xx * v.x + r.xy * v.y + r.xz * v.z,
        y: r.yx * v.x + r.yy * v.y + r.yz * v.z,
        z: r.zx * v.x + r.zy * v.y + r.zz * v.z,
        den: v.den * r.den,
    }
}

/// The pivot-relative rule: `p + R (v - p)`, computed exactly on one common
/// denominator `p.den * v.den * r.den`.
pub open spec fn rot_about(r: RotorV, p: Vec3V, v: Vec3V) -> Vec3V {
    let dx = v.x * p.den - p.x * v.den;
    let dy = v.y * p.den - p.y * v.den;
    let dz = v.z * p.den - p.z * v.den;
    Vec3V {
        x: p.x * (v.den * r.den) + (r.xx * dx + r.xy * dy + r.xz * dz),
        y: p.y * (v.den * r.den) + (r.yx * dx + r.yy * dy + r.yz * dz),
        z: p.z * (v.den * r.den) + (r.zx * dx + r.zy * dy + r.zz * dz),
        den: p.den * (v.den * r.den),
    }
}

/// The transposed matrix over the same denominator: the inverse rotation.
pub open spec fn rotor_transpose(r: RotorV) -> RotorV {
    RotorV {
        xx: r.xx,
        xy: r.yx,
        xz: r.zx,
        yx: r.xy,
        yy: r.yy,
        yz: r.zy,
        zx: r.xz,
        zy: r.yz,
        zz: r.zz,
        den: r.den,
    }
}

/// The matrix induced by the quaternion `(w, x, y, z)`, scaled by the
/// quaternion's squared norm.
pub open spec fn rotor_of_quat(w: int, x: int, y: int, z: int) -> RotorV {
    RotorV {
        xx: w * w + x * x - y * y - z * z,
        xy: 2 * (x * y - w * z),
        xz: 2 * (x * z + w * y),
        yx: 2 * (x * y + w * z),
        yy: w * w - x * x + y * y - z * z,
        yz: 2 * (y * z - w * x),
        zx: 2 * (x * z - w * y),
        zy: 2 * (y * z + w * x),
        zz: w * w - x * x - y * y + z * z,
        den: w * w + x * x + y * y + z * z,
    }
}

/// The quaternion encoding a turn by `angle` about the unit axis `axis`:
/// `(den + cos, sin * axis)`, or `(0, axis)` for an exact half turn.
pub open spec fn quat_of(axis: Vec3V, angle: AngleV) -> (int, int, int, int) {
    if angle.cos == -angle.den {
        (0, axis.x, axis.y, axis.z)
    } else {
        ((angle.den + angle.cos) * axis.den, angle.sin * axis.x, angle.sin * axis.y, angle.sin * axis.z)
    }
}

/// The rotor denoting a turn by `angle` about the unit axis `axis`.
pub open spec fn rotor_spec(axis: Vec3V, angle: AngleV) -> RotorV {
    let (w, x, y, z) = quat_of(axis, angle);
    rotor_of_quat(w, x, y, z)
}

// ----------------------------------------------------------------------
// Small generic ring facts. Each is a tiny polynomial identity; the larger
// algebraic arguments below are assembled from these so that no single
// solver query has to expand a big polynomial.
// ----------------------------------------------------------------------

/// Square of a three-term sum.
proof fn lemma_sq3(x: int, y: int, z: int)
    by (nonlinear_arith)
    ensures
        (x + y + z) * (x + y + z) == x * x + y * y + z * z + 2 * (x * y) + 2 * (x * z) + 2 * (y * z),
{
}

/// Distributing a common factor over a three-term sum.
proof fn lemma_dist3(a: int, b: int, c: int, m: int)
    by (nonlinear_arith)
    ensures
        (a + b + c) * m == a * m + b * m + c * m,
        m * (a + b + c) == m * a + m * b + m * c,
{
}

/// Regrouping a product of two products.
proof fn lemma_regroup(a: int, b: int, c: int, d: int)
    by (nonlinear_arith)
    ensures
        (a * b) * (c * d) == (a * c) * (b * d),
{
}

/// Commutativity and reassociation of small products.
proof fn lemma_comm(a: int, b: int)
    by (nonlinear_arith)
    ensures
        a * b == b * a,
{
}

/// Pulling a scalar out of a product.
proof fn lemma_pull(a: int, b: int, c: int)
    by (nonlinear_arith)
    ensures
        a * (b * c) == (a * b) * c,
        a * (b * c) == b * (a * c),
{
}

/// Polarization: the squared length of a sum of two triples.
proof fn lemma_polar3(ux: int, uy: int, uz: int, wx: int, wy: int, wz: int)
    by (nonlinear_arith)
    ensures
        (ux + wx) * (ux + wx) + (uy + wy) * (uy + wy) + (uz + wz) * (uz + wz)
            == (ux * ux + uy * uy + uz * uz) + 2 * (ux * wx + uy * wy + uz * wz)
            + (wx * wx + wy * wy + wz * wz),
{
}

// ----------------------------------------------------------------------
// The core isometry facts about a well-formed rotor.
// ----------------------------------------------------------------------

/// Applying a well-formed rotor to an integer triple scales its squared
/// length by exactly `den^2`: the heart of the rigidity guarantee.
pub proof fn lemma_rot_norm(r: RotorV, p: int, q: int, s: int)
    requires
        rotor_wf(r),
    ensures
        (r.xx * p + r.xy * q + r.xz * s) * (r.xx * p + r.xy * q + r.xz * s)
            + (r.yx * p + r.yy * q + r.yz * s) * (r.yx * p + r.yy * q + r.yz * s)
            + (r.zx * p + r.zy * q + r.zz * s) * (r.zx * p + r.zy * q + r.zz * s)
            == (r.den * r.den) * (p * p + q * q + s * s),
{
    lemma_sq3(r.xx * p, r.xy * q, r.xz * s);
    lemma_sq3(r.yx * p, r.yy * q, r.yz * s);
    lemma_sq3(r.zx * p, r.zy * q, r.zz * s);
    lemma_regroup(r.xx, p, r.xx, p);
    lemma_regroup(r.xy, q, r.xy, q);
    lemma_regroup(r.xz, s, r.xz, s);
    lemma_regroup(r.xx, p, r.xy, q);
    lemma_regroup(r.xx, p, r.xz, s);
    lemma_regroup(r.xy, q, r.xz, s);
    lemma_regroup(r.yx, p, r.yx, p);
    lemma_regroup(r.yy, q, r.yy, q);
    lemma_regroup(r.yz, s, r.yz, s);
    lemma_regroup(r.yx, p, r.yy, q);
    lemma_regroup(r.yx, p, r.yz, s);
    lemma_regroup(r.yy, q, r.yz, s);
    lemma_regroup(r.zx, p, r.zx, p);
    lemma_regroup(r.zy, q, r.zy, q);
    lemma_regroup(r.zz, s, r.zz, s);
    lemma_regroup(r.zx, p, r.zy, q);
    lemma_regroup(r.zx, p, r.zz, s);
    lemma_regroup(r.zy, q, r.zz, s);
    lemma_dist3(r.xx * r.xx, r.yx * r.yx, r.zx * r.zx, p * p);
    lemma_dist3(r.xy * r.xy, r.yy * r.yy, r.zy * r.zy, q * q);
    lemma_dist3(r.xz * r.xz, r.yz * r.yz, r.zz * r.zz, s * s);
    lemma_dist3(r.xx * r.xy, r.yx * r.yy, r.zx * r.zy, p * q);
    lemma_dist3(r.xx * r.xz, r.yx * r.yz, r.zx * r.zz, p * s);
    lemma_dist3(r.xy * r.xz, r.yy * r.yz, r.zy * r.zz, q * s);
    lemma_dist3(p * p, q * q, s * s, r.den * r.den);
    lemma_comm(p * p, r.den * r.den);
    lemma_comm(q * q, r.den * r.den);
    lemma_comm(s * s, r.den * r.den);
}

/// Applying a well-formed rotor to two integer triples scales their dot
/// product by exactly `den^2`: angles are preserved along with lengths.
pub proof fn lemma_rot_dot(
    r: RotorV,
    ax: int,
    ay: int,
    az: int,
    bx: int,
    by: int,
    bz: int,
)
    requires
        rotor_wf(r),
    ensures
        (r.xx * ax + r.xy * ay + r.xz * az) * (r.xx * bx + r.xy * by + r.xz * bz)
            + (r.yx * ax + r.yy * ay + r.yz * az) * (r.yx * bx + r.yy * by + r.yz * bz)
            + (r.zx * ax + r.zy * ay + r.zz * az) * (r.zx * bx + r.zy * by + r.zz * bz)
            == (r.den * r.den) * (ax * bx + ay * by + az * bz),
{
    let mxa = r.xx * ax + r.xy * ay + r.xz * az;
    let mya = r.yx * ax + r.yy * ay + r.yz * az;
    let mza = r.zx * ax + r.zy * ay + r.zz * az;
    let mxb = r.xx * bx + r.xy * by + r.xz * bz;
    let myb = r.yx * bx + r.yy * by + r.yz * bz;
    let mzb = r.zx * bx + r.zy * by + r.zz * bz;
    // M (a + b) == M a + M b, row by row.
    assert(r.xx * (ax + bx) == r.xx * ax + r.xx * bx) by (nonlinear_arith);
    assert(r.xy * (ay + by) == r.xy * ay + r.xy * by) by (nonlinear_arith);
    assert(r.xz * (az + bz) == r.xz * az + r.xz * bz) by (nonlinear_arith);
    assert(r.yx * (ax + bx) == r.yx * ax + r.yx * bx) by (nonlinear_arith);
    assert(r.yy * (ay + by) == r.yy * ay + r.yy * by) by (nonlinear_arith);
    assert(r.yz * (az + bz) == r.yz * az + r.yz * bz) by (nonlinear_arith);
    assert(r.zx * (ax + bx) == r.zx * ax + r.zx * bx) by (nonlinear_arith);
    assert(r.zy * (ay + by) == r.zy * ay + r.zy * by) by (nonlinear_arith);
    assert(r.zz * (az + bz) == r.zz * az + r.zz * bz) by (nonlinear_arith);
    // Squared length of M (a + b), twice over.
    lemma_rot_norm(r, ax + bx, ay + by, az + bz);
    lemma_rot_norm(r, ax, ay, az);
    lemma_rot_norm(r, bx, by, bz);
    lemma_polar3(mxa, mya, mza, mxb, myb, mzb);
    lemma_polar3(ax, ay, az, bx, by, bz);
    // Scale the right-hand polarization by den^2.
    let n2 = r.den * r.den;
    assert(n2 * ((ax + bx) * (ax + bx) + (ay + by) * (ay + by) + (az + bz) * (az + bz))
        == n2 * (ax * ax + ay * ay + az * az) + n2 * (2 * (ax * bx + ay * by + az * bz))
        + n2 * (bx * bx + by * by + bz * bz)) by {
        lemma_dist3(
            ax * ax + ay * ay + az * az,
            2 * (ax * bx + ay * by + az * bz),
            bx * bx + by * by + bz * bz,
            n2,
        );
        lemma_polar3(ax, ay, az, bx, by, bz);
        lemma_comm(ax * ax + ay * ay + az * az, n2);
        lemma_comm(2 * (ax * bx + ay * by + az * bz), n2);
        lemma_comm(bx * bx + by * by + bz * bz, n2);
    };
    assert(n2 * (2 * (ax * bx + ay * by + az * bz)) == 2 * (n2 * (ax * bx + ay * by + az * bz)))
        by (nonlinear_arith);
}


// ----------------------------------------------------------------------
// Derived facts at the vector level.
// ----------------------------------------------------------------------

/// The transpose of a well-formed rotor is well-formed: its columns are the
/// original's rows and the other way round.
pub proof fn lemma_transpose_wf(r: RotorV)
    requires
        rotor_wf(r),
    ensures
        rotor_wf(rotor_transpose(r)),
{
}

/// Rotating a direction keeps exact unit length.
pub proof fn lemma_rot_dir_unit(r: RotorV, v: Vec3V)
    requires
        rotor_wf(r),
        vec_wf(v),
        vec_is_unit(v),
    ensures
        vec_wf(rot_dir(r, v)),
        vec_is_unit(rot_dir(r, v)),
{
    lemma_rot_norm(r, v.x, v.y, v.z);
    assert(v.den * r.den >= 1) by (nonlinear_arith)
        requires
            v.den >= 1,
            r.den >= 1,
    ;
    lemma_regroup(r.den, r.den, v.den, v.den);
    lemma_comm(r.den, v.den);
    assert((r.den * v.den) * (r.den * v.den) == (v.den * r.den) * (v.den * r.den));
}

/// Rotating two directions scales their dot product by `den^2`; in
/// particular exact orthogonality is preserved.
pub proof fn lemma_rot_dir_dot(r: RotorV, a: Vec3V, b: Vec3V)
    requires
        rotor_wf(r),
    ensures
        dot_num(rot_dir(r, a), rot_dir(r, b)) == (r.den * r.den) * dot_num(a, b),
        dot_num(a, b) == 0 ==> dot_num(rot_dir(r, a), rot_dir(r, b)) == 0,
{
    lemma_rot_dot(r, a.x, a.y, a.z, b.x, b.y, b.z);
}

/// The pivot itself is a fixed point of the pivot-relative rule.
pub proof fn lemma_rot_about_fixed(r: RotorV, p: Vec3V)
    requires
        rotor_wf(r),
        vec_wf(p),
    ensures
        crate::vec3::same_pt(rot_about(r, p, p), p),
{
    let o = rot_about(r, p, p);
    assert(o.x == p.x * (p.den * r.den));
    assert(o.den == p.den * (p.den * r.den));
    lemma_pull(p.x, p.den * r.den, p.den);
    lemma_comm(p.den * r.den, p.den);
    assert(o.x * p.den == p.x * o.den);
    lemma_pull(p.y, p.den * r.den, p.den);
    assert(o.y * p.den == p.y * o.den);
    lemma_pull(p.z, p.den * r.den, p.den);
    assert(o.z * p.den == p.z * o.den);
}

/// Turning a direction and turning it back restores it exactly (as the
/// same direction: the numerators come back scaled by `den^2`, the
/// denominator by the same factor).
pub proof fn lemma_rot_dir_inverse(r: RotorV, v: Vec3V)
    requires
        rotor_wf(r),
        vec_wf(v),
    ensures
        crate::vec3::same_pt(rot_dir(rotor_transpose(r), rot_dir(r, v)), v),
{
    let n = r.den;
    lemma_mtm(r, v.x, v.y, v.z);
    let out = rot_dir(rotor_transpose(r), rot_dir(r, v));
    assert(out.x == (n * n) * v.x);
    assert(out.y == (n * n) * v.y);
    assert(out.z == (n * n) * v.z);
    assert(out.den == (v.den * n) * n);
    assert(((n * n) * v.x) * v.den == v.x * ((v.den * n) * n)) by (nonlinear_arith);
    assert(((n * n) * v.y) * v.den == v.y * ((v.den * n) * n)) by (nonlinear_arith);
    assert(((n * n) * v.z) * v.den == v.z * ((v.den * n) * n)) by (nonlinear_arith);
}

/// The transpose composed with the rotor scales every integer triple by
/// exactly `den^2`, componentwise: `M^T (M u) == den^2 u`.
pub proof fn lemma_mtm(r: RotorV, p: int, q: int, s: int)
    requires
        rotor_wf(r),
    ensures
        r.xx * (r.xx * p + r.xy * q + r.xz * s)
            + r.yx * (r.yx * p + r.yy * q + r.yz * s)
            + r.zx * (r.zx * p + r.zy * q + r.zz * s) == (r.den * r.den) * p,
        r.xy * (r.xx * p + r.xy * q + r.xz * s)
            + r.yy * (r.yx * p + r.yy * q + r.yz * s)
            + r.zy * (r.zx * p + r.zy * q + r.zz * s) == (r.den * r.den) * q,
        r.xz * (r.xx * p + r.xy * q + r.xz * s)
            + r.yz * (r.yx * p + r.yy * q + r.yz * s)
            + r.zz * (r.zx * p + r.zy * q + r.zz * s) == (r.den * r.den) * s,
{
    lemma_dist3(r.xx * p, r.xy * q, r.xz * s, r.xx);
    lemma_dist3(r.yx * p, r.yy * q, r.yz * s, r.yx);
    lemma_dist3(r.zx * p, r.zy * q, r.zz * s, r.zx);
    lemma_dist3(r.xx * p, r.xy * q, r.xz * s, r.xy);
    lemma_dist3(r.yx * p, r.yy * q, r.yz * s, r.yy);
    lemma_dist3(r.zx * p, r.zy * q, r.zz * s, r.zy);
    lemma_dist3(r.xx * p, r.xy * q, r.xz * s, r.xz);
    lemma_dist3(r.yx * p, r.yy * q, r.yz * s, r.yz);
    lemma_dist3(r.zx * p, r.zy * q, r.zz * s, r.zz);
    lemma_pull(r.xx, r.xx, p);
    lemma_pull(r.xx, r.xy, q);
    lemma_pull(r.xx, r.xz, s);
    lemma_pull(r.yx, r.yx, p);
    lemma_pull(r.yx, r.yy, q);
    lemma_pull(r.yx, r.yz, s);
    lemma_pull(r.zx, r.zx, p);
    lemma_pull(r.zx, r.zy, q);
    lemma_pull(r.zx, r.zz, s);
    lemma_pull(r.xy, r.xx, p);
    lemma_pull(r.xy, r.xy, q);
    lemma_pull(r.xy, r.xz, s);
    lemma_pull(r.yy, r.yx, p);
    lemma_pull(r.yy, r.yy, q);
    lemma_pull(r.yy, r.yz, s);
    lemma_pull(r.zy, r.zx, p);
    lemma_pull(r.zy, r.zy, q);
    lemma_pull(r.zy, r.zz, s);
    lemma_pull(r.xz, r.xx, p);
    lemma_pull(r.xz, r.xy, q);
    lemma_pull(r.xz, r.xz, s);
    lemma_pull(r.yz, r.yx, p);
    lemma_pull(r.yz, r.yy, q);
    lemma_pull(r.yz, r.yz, s);
    lemma_pull(r.zz, r.zx, p);
    lemma_pull(r.zz, r.zy, q);
    lemma_pull(r.zz, r.zz, s);
    lemma_dist3(r.xx * r.xx, r.yx * r.yx, r.zx * r.zx, p);
    lemma_dist3(r.xx * r.xy, r.yx * r.yy, r.zx * r.zy, q);
    lemma_dist3(r.xx * r.xz, r.yx * r.yz, r.zx * r.zz, s);
    lemma_comm(r.xy, r.xx);
    lemma_comm(r.yy, r.yx);
    lemma_comm(r.zy, r.zx);
    lemma_dist3(r.xx * r.xy, r.yx * r.yy, r.zx * r.zy, p);
    lemma_dist3(r.xy * r.xy, r.yy * r.yy, r.zy * r.zy, q);
    lemma_dist3(r.xy * r.xz, r.yy * r.yz, r.zy * r.zz, s);
    lemma_comm(r.xz, r.xx);
    lemma_comm(r.yz, r.yx);
    lemma_comm(r.zz, r.zx);
    lemma_comm(r.xz, r.xy);
    lemma_comm(r.yz, r.yy);
    lemma_comm(r.zz, r.zy);
    lemma_dist3(r.xx * r.xz, r.yx * r.yz, r.zx * r.zz, p);
    lemma_dist3(r.xy * r.xz, r.yy * r.yz, r.zy * r.zz, q);
    lemma_dist3(r.xz * r.xz, r.yz * r.yz, r.zz * r.zz, s);
}


/// Single-monomial regrouping used when assembling the inverse argument.
proof fn lemma_inv_cancel(a: int, b: int, c: int, d: int)
    by (nonlinear_arith)
    ensures
        a * ((b * (c * d)) * d) == ((d * d) * (a * c)) * b,
{
}

/// Rotating about a pivot and then rotating back by the transposed rotor
/// about the same pivot restores every point exactly.
pub proof fn lemma_rot_about_inverse(r: RotorV, p: Vec3V, v: Vec3V)
    requires
        rotor_wf(r),
        vec_wf(p),
        vec_wf(v),
    ensures
        crate::vec3::same_pt(rot_about(rotor_transpose(r), p, rot_about(r, p, v)), v),
{
    let n = r.den;
    let rt = rotor_transpose(r);
    let v1 = rot_about(r, p, v);
    let v2 = rot_about(rt, p, v1);
    let d1x = v.x * p.den - p.x * v.den;
    let d1y = v.y * p.den - p.y * v.den;
    let d1z = v.z * p.den - p.z * v.den;
    let m1x = r.xx * d1x + r.xy * d1y + r.xz * d1z;
    let m1y = r.yx * d1x + r.yy * d1y + r.yz * d1z;
    let m1z = r.zx * d1x + r.zy * d1y + r.zz * d1z;
    assert(v1.x == p.x * (v.den * n) + m1x);
    assert(v1.den == p.den * (v.den * n));
    // The pivot terms cancel in the second difference.
    let d2x = v1.x * p.den - p.x * v1.den;
    let d2y = v1.y * p.den - p.y * v1.den;
    let d2z = v1.z * p.den - p.z * v1.den;
    assert((p.x * (v.den * n) + m1x) * p.den == (p.x * (v.den * n)) * p.den + m1x * p.den)
        by (nonlinear_arith);
    lemma_pull(p.x, v.den * n, p.den);
    lemma_comm(v.den * n, p.den);
    assert(d2x == m1x * p.den);
    assert((p.y * (v.den * n) + m1y) * p.den == (p.y * (v.den * n)) * p.den + m1y * p.den)
        by (nonlinear_arith);
    lemma_pull(p.y, v.den * n, p.den);
    assert(d2y == m1y * p.den);
    assert((p.z * (v.den * n) + m1z) * p.den == (p.z * (v.den * n)) * p.den + m1z * p.den)
        by (nonlinear_arith);
    lemma_pull(p.z, v.den * n, p.den);
    assert(d2z == m1z * p.den);
    // Pull the common factor out of the transposed application.
    lemma_pull(r.xx, m1x, p.den);
    lemma_pull(r.yx, m1y, p.den);
    lemma_pull(r.zx, m1z, p.den);
    lemma_pull(r.xy, m1x, p.den);
    lemma_pull(r.yy, m1y, p.den);
    lemma_pull(r.zy, m1z, p.den);
    lemma_pull(r.xz, m1x, p.den);
    lemma_pull(r.yz, m1y, p.den);
    lemma_pull(r.zz, m1z, p.den);
    lemma_dist3(r.xx * m1x, r.yx * m1y, r.zx * m1z, p.den);
    lemma_dist3(r.xy * m1x, r.yy * m1y, r.zy * m1z, p.den);
    lemma_dist3(r.xz * m1x, r.yz * m1y, r.zz * m1z, p.den);
    lemma_mtm(r, d1x, d1y, d1z);
    assert(rt.xx * d2x + rt.xy * d2y + rt.xz * d2z == ((n * n) * d1x) * p.den);
    assert(rt.yx * d2x + rt.yy * d2y + rt.yz * d2z == ((n * n) * d1y) * p.den);
    assert(rt.zx * d2x + rt.zy * d2y + rt.zz * d2z == ((n * n) * d1z) * p.den);
    // Expand the remaining difference and cancel against the pivot part.
    assert((n * n) * d1x == (n * n) * (v.x * p.den) - (n * n) * (p.x * v.den)) by (nonlinear_arith)
        requires
            d1x == v.x * p.den - p.x * v.den,
    ;
    assert(((n * n) * d1x) * p.den == ((n * n) * (v.x * p.den)) * p.den - ((n * n) * (p.x * v.den)) * p.den)
        by (nonlinear_arith)
        requires
            (n * n) * d1x == (n * n) * (v.x * p.den) - (n * n) * (p.x * v.den),
    ;
    lemma_inv_cancel(p.x, p.den, v.den, n);
    assert(v2.x == p.x * (v1.den * n) + ((n * n) * d1x) * p.den);
    assert(v2.x == ((n * n) * (v.x * p.den)) * p.den) by {
        assert(p.x * ((p.den * (v.den * n)) * n) == ((n * n) * (p.x * v.den)) * p.den);
    };
    assert((n * n) * d1y == (n * n) * (v.y * p.den) - (n * n) * (p.y * v.den)) by (nonlinear_arith)
        requires
            d1y == v.y * p.den - p.y * v.den,
    ;
    assert(((n * n) * d1y) * p.den == ((n * n) * (v.y * p.den)) * p.den - ((n * n) * (p.y * v.den)) * p.den)
        by (nonlinear_arith)
        requires
            (n * n) * d1y == (n * n) * (v.y * p.den) - (n * n) * (p.y * v.den),
    ;
    lemma_inv_cancel(p.y, p.den, v.den, n);
    assert(v2.y == ((n * n) * (v.y * p.den)) * p.den);
    assert((n * n) * d1z == (n * n) * (v.z * p.den) - (n * n) * (p.z * v.den)) by (nonlinear_arith)
        requires
            d1z == v.z * p.den - p.z * v.den,
    ;
    assert(((n * n) * d1z) * p.den == ((n * n) * (v.z * p.den)) * p.den - ((n * n) * (p.z * v.den)) * p.den)
        by (nonlinear_arith)
        requires
            (n * n) * d1z == (n * n) * (v.z * p.den) - (n * n) * (p.z * v.den),
    ;
    lemma_inv_cancel(p.z, p.den, v.den, n);
    assert(v2.z == ((n * n) * (v.z * p.den)) * p.den);
    // Cross-multiplied equality with the original point.
    assert(v2.den == p.den * ((p.den * (v.den * n)) * n));
    lemma_inv_cancel2(v.x, p.den, v.den, n);
    assert(v2.x * v.den == v.x * v2.den);
    lemma_inv_cancel2(v.y, p.den, v.den, n);
    assert(v2.y * v.den == v.y * v2.den);
    lemma_inv_cancel2(v.z, p.den, v.den, n);
    assert(v2.z * v.den == v.z * v2.den);
}

/// Single-monomial regrouping for the final cross-multiplication.
proof fn lemma_inv_cancel2(a: int, b: int, c: int, d: int)
    by (nonlinear_arith)
    ensures
        (((d * d) * (a * b)) * b) * c == a * (b * ((b * (c * d)) * d)),
{
}


/// Distributing multiplication over subtraction, in both orders.
proof fn lemma_sub_dist(u: int, w: int, c: int)
    by (nonlinear_arith)
    ensures
        (u - w) * c == u * c - w * c,
        c * (u - w) == c * u - c * w,
{
}

/// Regrouping over the squared denominators in the rotation argument.
#[verifier::rlimit(100)]
proof fn lemma_dist_assemble2(s: int, n2: int, p2: int, d2: int)
    by (nonlinear_arith)
    ensures
        ((n2 * s) * (p2 * (p2 * (d2 * n2)))) * (d2 * d2)
            == (s * d2) * ((p2 * (d2 * n2)) * (p2 * (d2 * n2))),
{
}

/// Single-monomial regrouping for the rotation distance argument.
proof fn lemma_dist_assemble(s: int, n: int, pd: int, d: int)
    ensures
        (((n * n) * s) * ((pd * pd) * ((pd * (d * n)) * (pd * (d * n))))) * ((d * d) * (d * d))
            == (s * (d * d)) * (((pd * (d * n)) * (pd * (d * n))) * ((pd * (d * n)) * (pd * (d * n)))),
{
    let c = pd * (d * n);
    lemma_regroup(pd, d * n, pd, d * n);
    lemma_regroup(d, n, d, n);
    assert(c * c == (pd * pd) * ((d * d) * (n * n)));
    lemma_dist_assemble2(s, n * n, pd * pd, d * d);
}

/// Single-monomial regrouping for the translation distance argument.
proof fn lemma_trans_assemble(s: int, td: int, d: int)
    by (nonlinear_arith)
    ensures
        (s * ((td * td) * ((d * td) * (d * td)))) * ((d * d) * (d * d))
            == (s * (d * d)) * (((d * td) * (d * td)) * ((d * td) * (d * td))),
{
}

/// Rotating two points (sharing one denominator) about one pivot with one
/// rotor preserves their exact squared distance.
pub proof fn lemma_rot_about_dist(r: RotorV, p: Vec3V, a: Vec3V, b: Vec3V)
    requires
        rotor_wf(r),
        vec_wf(p),
        vec_wf(a),
        vec_wf(b),
        a.den == b.den,
    ensures
        crate::vec3::dist_sq_eq(rot_about(r, p, a), rot_about(r, p, b), a, b),
{
    let n = r.den;
    let d = a.den;
    let c = p.den * (d * n);
    let ra = rot_about(r, p, a);
    let rb = rot_about(r, p, b);
    let ex = a.x - b.x;
    let ey = a.y - b.y;
    let ez = a.z - b.z;
    let gx = r.xx * ex + r.xy * ey + r.xz * ez;
    let gy = r.yx * ex + r.yy * ey + r.yz * ez;
    let gz = r.zx * ex + r.zy * ey + r.zz * ez;
    // The primed difference numerators factor through the rotor.
    lemma_sub_dist(a.x, b.x, p.den);
    lemma_sub_dist(a.y, b.y, p.den);
    lemma_sub_dist(a.z, b.z, p.den);
    lemma_mul_sub3(r.xx, r.xy, r.xz, a.x * p.den - p.x * d, a.y * p.den - p.y * d,
        a.z * p.den - p.z * d, b.x * p.den - p.x * d, b.y * p.den - p.y * d,
        b.z * p.den - p.z * d);
    lemma_mul_sub3(r.yx, r.yy, r.yz, a.x * p.den - p.x * d, a.y * p.den - p.y * d,
        a.z * p.den - p.z * d, b.x * p.den - p.x * d, b.y * p.den - p.y * d,
        b.z * p.den - p.z * d);
    lemma_mul_sub3(r.zx, r.zy, r.zz, a.x * p.den - p.x * d, a.y * p.den - p.y * d,
        a.z * p.den - p.z * d, b.x * p.den - p.x * d, b.y * p.den - p.y * d,
        b.z * p.den - p.z * d);
    lemma_mul_sub3(r.xx, r.xy, r.xz, ex * p.den, ey * p.den, ez * p.den, 0, 0, 0);
    lemma_pull(r.xx, ex, p.den);
    lemma_pull(r.xy, ey, p.den);
    lemma_pull(r.xz, ez, p.den);
    lemma_pull(r.yx, ex, p.den);
    lemma_pull(r.yy, ey, p.den);
    lemma_pull(r.yz, ez, p.den);
    lemma_pull(r.zx, ex, p.den);
    lemma_pull(r.zy, ey, p.den);
    lemma_pull(r.zz, ez, p.den);
    lemma_dist3(r.xx * ex, r.xy * ey, r.xz * ez, p.den);
    lemma_dist3(r.yx * ex, r.yy * ey, r.yz * ez, p.den);
    lemma_dist3(r.zx * ex, r.zy * ey, r.zz * ez, p.den);
    assert(ra.x - rb.x == gx * p.den);
    assert(ra.y - rb.y == gy * p.den);
    assert(ra.z - rb.z == gz * p.den);
    assert(ra.den == c && rb.den == c);
    // Squared distance of the rotated pair.
    lemma_sub_dist(ra.x, rb.x, c);
    lemma_sub_dist(ra.y, rb.y, c);
    lemma_sub_dist(ra.z, rb.z, c);
    lemma_regroup(gx * p.den, c, gx * p.den, c);
    lemma_regroup(gx, p.den, gx, p.den);
    lemma_regroup(gy * p.den, c, gy * p.den, c);
    lemma_regroup(gy, p.den, gy, p.den);
    lemma_regroup(gz * p.den, c, gz * p.den, c);
    lemma_regroup(gz, p.den, gz, p.den);
    lemma_pull(gx * gx, p.den * p.den, c * c);
    lemma_pull(gy * gy, p.den * p.den, c * c);
    lemma_pull(gz * gz, p.den * p.den, c * c);
    lemma_dist3(gx * gx, gy * gy, gz * gz, (p.den * p.den) * (c * c));
    assert(crate::vec3::dist_sq_num(ra, rb)
        == (gx * gx + gy * gy + gz * gz) * ((p.den * p.den) * (c * c)));
    lemma_rot_norm(r, ex, ey, ez);
    assert(gx * gx + gy * gy + gz * gz == (n * n) * (ex * ex + ey * ey + ez * ez));
    // Squared distance of the original pair.
    lemma_sub_dist(a.x, b.x, d);
    lemma_sub_dist(a.y, b.y, d);
    lemma_sub_dist(a.z, b.z, d);
    lemma_regroup(ex, d, ex, d);
    lemma_regroup(ey, d, ey, d);
    lemma_regroup(ez, d, ez, d);
    lemma_dist3(ex * ex, ey * ey, ez * ez, d * d);
    assert(crate::vec3::dist_sq_num(a, b) == (ex * ex + ey * ey + ez * ez) * (d * d));
    // Assemble the cross-multiplied equality.
    let se = ex * ex + ey * ey + ez * ez;
    assert(crate::vec3::dist_sq_num(ra, rb) == ((n * n) * se) * ((p.den * p.den) * (c * c)));
    lemma_dist_assemble(se, n, p.den, d);
    assert((((n * n) * se) * ((p.den * p.den) * (c * c))) * ((d * d) * (d * d))
        == (se * (d * d)) * ((c * c) * (c * c)));
}

/// Multiplying a row into a componentwise difference of two triples.
proof fn lemma_mul_sub3(
    m1: int,
    m2: int,
    m3: int,
    ux: int,
    uy: int,
    uz: int,
    wx: int,
    wy: int,
    wz: int,
)
    by (nonlinear_arith)
    ensures
        (m1 * ux + m2 * uy + m3 * uz) - (m1 * wx + m2 * wy + m3 * wz)
            == m1 * (ux - wx) + m2 * (uy - wy) + m3 * (uz - wz),
{
}

/// Translating two points (sharing one denominator) by one displacement
/// preserves their exact squared distance.
pub proof fn lemma_translate_dist(a: Vec3V, b: Vec3V, t: Vec3V)
    requires
        vec_wf(a),
        vec_wf(b),
        vec_wf(t),
        a.den == b.den,
    ensures
        crate::vec3::dist_sq_eq(
            crate::vec3::vadd(a, t),
            crate::vec3::vadd(b, t),
            a,
            b,
        ),
{
    let d = a.den;
    let c = d * t.den;
    let a1 = crate::vec3::vadd(a, t);
    let b1 = crate::vec3::vadd(b, t);
    let ex = a.x - b.x;
    let ey = a.y - b.y;
    let ez = a.z - b.z;
    lemma_sub_dist(a.x, b.x, t.den);
    lemma_sub_dist(a.y, b.y, t.den);
    lemma_sub_dist(a.z, b.z, t.den);
    assert(a1.x - b1.x == ex * t.den);
    assert(a1.y - b1.y == ey * t.den);
    assert(a1.z - b1.z == ez * t.den);
    assert(a1.den == c && b1.den == c);
    lemma_sub_dist(a1.x, b1.x, c);
    lemma_sub_dist(a1.y, b1.y, c);
    lemma_sub_dist(a1.z, b1.z, c);
    lemma_regroup(ex * t.den, c, ex * t.den, c);
    lemma_regroup(ex, t.den, ex, t.den);
    lemma_regroup(ey * t.den, c, ey * t.den, c);
    lemma_regroup(ey, t.den, ey, t.den);
    lemma_regroup(ez * t.den, c, ez * t.den, c);
    lemma_regroup(ez, t.den, ez, t.den);
    lemma_pull(ex * ex, t.den * t.den, c * c);
    lemma_pull(ey * ey, t.den * t.den, c * c);
    lemma_pull(ez * ez, t.den * t.den, c * c);
    lemma_dist3(ex * ex, ey * ey, ez * ez, (t.den * t.den) * (c * c));
    assert(crate::vec3::dist_sq_num(a1, b1)
        == (ex * ex + ey * ey + ez * ez) * ((t.den * t.den) * (c * c)));
    lemma_sub_dist(a.x, b.x, d);
    lemma_sub_dist(a.y, b.y, d);
    lemma_sub_dist(a.z, b.z, d);
    lemma_regroup(ex, d, ex, d);
    lemma_regroup(ey, d, ey, d);
    lemma_regroup(ez, d, ez, d);
    lemma_dist3(ex * ex, ey * ey, ez * ez, d * d);
    assert(crate::vec3::dist_sq_num(a, b) == (ex * ex + ey * ey + ez * ez) * (d * d));
    let se = ex * ex + ey * ey + ez * ez;
    lemma_trans_assemble(se, t.den, d);
    assert((se * ((t.den * t.den) * (c * c))) * ((d * d) * (d * d))
        == (se * (d * d)) * ((c * c) * (c * c)));
}


/// Negated products, used to relate a rotor to its opposite-angle twin.
proof fn lemma_neg_products(a: int, b: int)
    by (nonlinear_arith)
    ensures
        (-a) * (-b) == a * b,
        (-a) * b == -(a * b),
        a * (-b) == -(a * b),
{
}

/// **The opposite angle inverts.** The rotor for `-angle` about an axis is
/// exactly the transpose of the rotor for `angle`: turning back by the
/// same angle is the inverse isometry.
pub proof fn lemma_opposite_angle_transposes(axis: Vec3V, angle: AngleV)
    requires
        angle_wf(angle),
    ensures
        rotor_spec(axis, AngleV { cos: angle.cos, sin: -angle.sin, den: angle.den })
            == rotor_transpose(rotor_spec(axis, angle)),
{
    let neg = AngleV { cos: angle.cos, sin: -angle.sin, den: angle.den };
    if angle.cos == -angle.den {
        // An exact half turn: the sine is zero and the matrix symmetric.
        assert(angle.sin == 0) by (nonlinear_arith)
            requires
                angle.cos * angle.cos + angle.sin * angle.sin == angle.den * angle.den,
                angle.cos == -angle.den,
        ;
        let (w, x, y, z) = quat_of(axis, angle);
        assert(rotor_of_quat(w, x, y, z) == rotor_transpose(rotor_of_quat(w, x, y, z)));
    } else {
        let w = (angle.den + angle.cos) * axis.den;
        let x = angle.sin * axis.x;
        let y = angle.sin * axis.y;
        let z = angle.sin * axis.z;
        lemma_neg_products(angle.sin, axis.x);
        lemma_neg_products(angle.sin, axis.y);
        lemma_neg_products(angle.sin, axis.z);
        assert(quat_of(axis, neg) == (w, -x, -y, -z));
        lemma_neg_products(x, x);
        lemma_neg_products(y, y);
        lemma_neg_products(z, z);
        lemma_neg_products(x, y);
        lemma_neg_products(x, z);
        lemma_neg_products(y, z);
        lemma_neg_products(w, x);
        lemma_neg_products(w, y);
        lemma_neg_products(w, z);
        assert(rotor_of_quat(w, -x, -y, -z) == rotor_transpose(rotor_of_quat(w, x, y, z)));
    }
}

// ----------------------------------------------------------------------
// The executable rotor.
// ----------------------------------------------------------------------

/// Bound on position numerators and denominators accepted by the rotation
/// routines: the full pivot-relative computation stays within `i128`.
pub const POS_BOUND: i128 = 0x100_0000_0000;

/// Bound on rotor entries and denominator accepted by the rotation routines.
pub const ROT_BOUND: i128 = 0x800_0000_0000;

/// Bound on positions at the start of a tick: one rotation and one
/// translation can then be applied without leaving machine range.
pub const TICK_BOUND: i128 = 0x200_0000;

/// Bound on the axis handed to `Rotor::from_axis_angle`.
pub const AXIS_BOUND: i128 = 0x200;

/// Bound on the angle handed to `Rotor::from_axis_angle`.
pub const ANGLE_BOUND: i128 = 0x800;

/// An executable rotor: matrix numerators over one positive denominator.
#[derive(Clone, Copy, Debug, PartialEq, Eq, Structural)]
pub struct Rotor {
    pub xx: i128,
    pub xy: i128,
    pub xz: i128,
    pub yx: i128,
    pub yy: i128,
    pub yz: i128,
    pub zx: i128,
    pub zy: i128,
    pub zz: i128,
    pub den: i128,
}

impl View for Rotor {
    type V = RotorV;

    open spec fn view(&self) -> RotorV {
        RotorV {
            xx: self.xx as int,
            xy: self.xy as int,
            xz: self.xz as int,
            yx: self.yx as int,
            yy: self.yy as int,
            yz: self.yz as int,
            zx: self.zx as int,
            zy: self.zy as int,
            zz: self.zz as int,
            den: self.den as int,
        }
    }
}

impl Rotor {
    /// Well-formed: the scaled matrix is orthogonal.
    pub open spec fn wf(self) -> bool {
        rotor_wf(self@)
    }

    /// All entry magnitudes lie within `b`.
    pub open spec fn bounded(self, b: int) -> bool {
        rotor_bounded(self@, b)
    }

    /// Builds a rotor from explicit matrix entries, accepting it only after
    /// checking outright that the scaled matrix is orthogonal.
    #[verifier::rlimit(30)]
    pub fn new(
        xx: i128, xy: i128, xz: i128,
        yx: i128, yy: i128, yz: i128,
        zx: i128, zy: i128, zz: i128,
        den: i128,
    ) -> (r: Option<Rotor>)
        requires
            -ROT_BOUND <= xx <= ROT_BOUND,
            -ROT_BOUND <= xy <= ROT_BOUND,
            -ROT_BOUND <= xz <= ROT_BOUND,
            -ROT_BOUND <= yx <= ROT_BOUND,
            -ROT_BOUND <= yy <= ROT_BOUND,
            -ROT_BOUND <= yz <= ROT_BOUND,
            -ROT_BOUND <= zx <= ROT_BOUND,
            -ROT_BOUND <= zy <= ROT_BOUND,
            -ROT_BOUND <= zz <= ROT_BOUND,
            -ROT_BOUND <= den <= ROT_BOUND,
        ensures
            r is Some <==> rotor_wf(RotorV {
                xx: xx as int, xy: xy as int, xz: xz as int,
                yx: yx as int, yy: yy as int, yz: yz as int,
                zx: zx as int, zy: zy as int, zz: zz as int,
                den: den as int,
            }),
            r is Some ==> r->0@ == (RotorV {
                xx: xx as int, xy: xy as int, xz: xz as int,
                yx: yx as int, yy: yy as int, yz: yz as int,
                zx: zx as int, zy: zy as int, zz: zz as int,
                den: den as int,
            }),
            r is Some ==> r->0.wf(),
    {
        proof {
            let rb = ROT_BOUND as int;
            lemma_mul_bound(xx as int, xx as int, rb, rb);
            lemma_mul_bound(xy as int, xy as int, rb, rb);
            lemma_mul_bound(xz as int, xz as int, rb, rb);
            lemma_mul_bound(yx as int, yx as int, rb, rb);
            lemma_mul_bound(yy as int, yy as int, rb, rb);
            lemma_mul_bound(yz as int, yz as int, rb, rb);
            lemma_mul_bound(zx as int, zx as int, rb, rb);
            lemma_mul_bound(zy as int, zy as int, rb, rb);
            lemma_mul_bound(zz as int, zz as int, rb, rb);
            lemma_mul_bound(den as int, den as int, rb, rb);
            lemma_mul_bound(xx as int, xy as int, rb, rb);
            lemma_mul_bound(yx as int, yy as int, rb, rb);
            lemma_mul_bound(zx as int, zy as int, rb, rb);
            lemma_mul_bound(xx as int, xz as int, rb, rb);
            lemma_mul_bound(yx as int, yz as int, rb, rb);
            lemma_mul_bound(zx as int, zz as int, rb, rb);
            lemma_mul_bound(xy as int, xz as int, rb, rb);
            lemma_mul_bound(yy as int, yz as int, rb, rb);
            lemma_mul_bound(zy as int, zz as int, rb, rb);
            lemma_mul_bound(xx as int, yx as int, rb, rb);
            lemma_mul_bound(xy as int, yy as int, rb, rb);
            lemma_mul_bound(xz as int, yz as int, rb, rb);
            lemma_mul_bound(xx as int, zx as int, rb, rb);
            lemma_mul_bound(xy as int, zy as int, rb, rb);
            lemma_mul_bound(xz as int, zz as int, rb, rb);
            lemma_mul_bound(yx as int, zx as int, rb, rb);
            lemma_mul_bound(yy as int, zy as int, rb, rb);
            lemma_mul_bound(yz as int, zz as int, rb, rb);
        }
        let ok = den >= 1
            && xx * xx + yx * yx + zx * zx == den * den
            && xy * xy + yy * yy + zy * zy == den * den
            && xz * xz + yz * yz + zz * zz == den * den
            && xx * xy + yx * yy + zx * zy == 0
            && xx * xz + yx * yz + zx * zz == 0
            && xy * xz + yy * yz + zy * zz == 0
            && xx * xx + xy * xy + xz * xz == den * den
            && yx * yx + yy * yy + yz * yz == den * den
            && zx * zx + zy * zy + zz * zz == den * den
            && xx * yx + xy * yy + xz * yz == 0
            && xx * zx + xy * zy + xz * zz == 0
            && yx * zx + yy * zy + yz * zz == 0;
        if ok {
            Some(Rotor { xx, xy, xz, yx, yy, yz, zx, zy, zz, den })
        } else {
            None
        }
    }

    /// The identity rotor.
    pub fn identity() -> (r: Rotor)
        ensures
            r@ == (RotorV {
                xx: 1 as int, xy: 0 as int, xz: 0 as int,
                yx: 0 as int, yy: 1 as int, yz: 0 as int,
                zx: 0 as int, zy: 0 as int, zz: 1 as int,
                den: 1 as int,
            }),
            r.wf(),
            r.bounded(ROT_BOUND as int),
    {
        Rotor { xx: 1, xy: 0, xz: 0, yx: 0, yy: 1, yz: 0, zx: 0, zy: 0, zz: 1, den: 1 }
    }

    /// The transposed rotor: the exact inverse rotation.
    pub fn transpose(&self) -> (r: Rotor)
        ensures
            r@ == rotor_transpose(self@),
            self.wf() ==> r.wf(),
    {
        Rotor {
            xx: self.xx,
            xy: self.yx,
            xz: self.zx,
            yx: self.xy,
            yy: self.yy,
            yz: self.zy,
            zx: self.xz,
            zy: self.yz,
            zz: self.zz,
            den: self.den,
        }
    }

    /// Builds the rotor turning by `angle` about the exactly-unit `axis`,
    /// through the quaternion `(den + cos, sin * axis)` (or `(0, axis)` for
    /// a half turn). The scaled matrix is checked for orthogonality, so a
    /// `Some` answer is well-formed by construction.
    pub fn from_axis_angle(axis: &Vec3, angle: &Angle) -> (r: Option<Rotor>)
        requires
            axis.wf(),
            angle.wf(),
            vec_is_unit(axis@),
            vec_bounded(axis@, AXIS_BOUND as int),
            angle_bounded(angle@, ANGLE_BOUND as int),
        ensures
            r is Some <==> rotor_wf(rotor_spec(axis@, angle@)),
            r is Some ==> r->0@ == rotor_spec(axis@, angle@),
            r is Some ==> rotor_bounded(r->0@, ROT_BOUND as int),
    {
        proof {
            let ab = AXIS_BOUND as int;
            let nb = ANGLE_BOUND as int;
            lemma_mul_bound(angle@.den + angle@.cos, axis@.den, 2 * nb, ab);
            lemma_mul_bound(angle@.sin, axis@.x, nb, ab);
            lemma_mul_bound(angle@.sin, axis@.y, nb, ab);
            lemma_mul_bound(angle@.sin, axis@.z, nb, ab);
        }
        let (w, x, y, z): (i128, i128, i128, i128) = if angle.cos == -angle.den {
            (0, axis.x, axis.y, axis.z)
        } else {
            ((angle.den + angle.cos) * axis.den, angle.sin * axis.x, angle.sin * axis.y,
                angle.sin * axis.z)
        };
        proof {
            let wb: int = 0x20_0000;
            let qb: int = 0x10_0000;
            assert(-wb <= w as int <= wb && -qb <= x as int <= qb && -qb <= y as int <= qb
                && -qb <= z as int <= qb);
            lemma_mul_bound(w as int, w as int, wb, wb);
            lemma_mul_bound(x as int, x as int, qb, qb);
            lemma_mul_bound(y as int, y as int, qb, qb);
            lemma_mul_bound(z as int, z as int, qb, qb);
            lemma_mul_bound(x as int, y as int, qb, qb);
            lemma_mul_bound(w as int, z as int, wb, qb);
            lemma_mul_bound(x as int, z as int, qb, qb);
            lemma_mul_bound(w as int, y as int, wb, qb);
            lemma_mul_bound(y as int, z as int, qb, qb);
            lemma_mul_bound(w as int, x as int, wb, qb);
        }
        Rotor::new(
            w * w + x * x - y * y - z * z,
            2 * (x * y - w * z),
            2 * (x * z + w * y),
            2 * (x * y + w * z),
            w * w - x * x + y * y - z * z,
            2 * (y * z - w * x),
            2 * (x * z - w * y),
            2 * (y * z + w * x),
            w * w - x * x - y * y + z * z,
            w * w + x * x + y * y + z * z,
        )
    }

    /// Rotates a direction vector: orientation only, no pivot.
    pub fn rotate_dir(&self, v: &Vec3) -> (r: Vec3)
        requires
            self.bounded(ROT_BOUND as int),
            v.bounded(POS_BOUND as int),
        ensures
            r@ == rot_dir(self@, v@),
            r.wf(),
            vec_bounded(v@, TICK_BOUND as int) ==> vec_bounded(
                r@,
                crate::vec3::WIDE_BOUND as int,
            ),
    {
        proof {
            let rb = ROT_BOUND as int;
            let pb = POS_BOUND as int;
            if vec_bounded(v@, TICK_BOUND as int) {
                let tb = TICK_BOUND as int;
                lemma_mul_bound(self@.xx, v@.x, rb, tb);
                lemma_mul_bound(self@.xy, v@.y, rb, tb);
                lemma_mul_bound(self@.xz, v@.z, rb, tb);
                lemma_mul_bound(self@.yx, v@.x, rb, tb);
                lemma_mul_bound(self@.yy, v@.y, rb, tb);
                lemma_mul_bound(self@.yz, v@.z, rb, tb);
                lemma_mul_bound(self@.zx, v@.x, rb, tb);
                lemma_mul_bound(self@.zy, v@.y, rb, tb);
                lemma_mul_bound(self@.zz, v@.z, rb, tb);
                lemma_mul_bound(v@.den, self@.den, tb, rb);
            }
            lemma_mul_bound(self@.xx, v@.x, rb, pb);
            lemma_mul_bound(self@.xy, v@.y, rb, pb);
            lemma_mul_bound(self@.xz, v@.z, rb, pb);
            lemma_mul_bound(self@.yx, v@.x, rb, pb);
            lemma_mul_bound(self@.yy, v@.y, rb, pb);
            lemma_mul_bound(self@.yz, v@.z, rb, pb);
            lemma_mul_bound(self@.zx, v@.x, rb, pb);
            lemma_mul_bound(self@.zy, v@.y, rb, pb);
            lemma_mul_bound(self@.zz, v@.z, rb, pb);
            lemma_mul_bound(v@.den, self@.den, pb, rb);
            assert(v@.den * self@.den >= 1) by (nonlinear_arith)
                requires
                    v@.den >= 1,
                    self@.den >= 1,
            ;
        }
        Vec3 {
            x: self.xx * v.x + self.xy * v.y + self.xz * v.z,
            y: self.yx * v.x + self.yy * v.y + self.yz * v.z,
            z: self.zx * v.x + self.zy * v.y + self.zz * v.z,
            den: v.den * self.den,
        }
    }

    /// Rotates a point about a pivot: the pivot-relative rule
    /// `p + R (v - p)`, computed exactly.
    pub fn rotate_about(&self, p: &Vec3, v: &Vec3) -> (r: Vec3)
        requires
            self.bounded(ROT_BOUND as int),
            p.bounded(POS_BOUND as int),
            v.bounded(POS_BOUND as int),
        ensures
            r@ == rot_about(self@, p@, v@),
            r.wf(),
            vec_bounded(p@, TICK_BOUND as int) && vec_bounded(v@, TICK_BOUND as int)
                ==> vec_bounded(r@, crate::vec3::WIDE_BOUND as int),
    {
        proof {
            let rb = ROT_BOUND as int;
            let pb = POS_BOUND as int;
            if vec_bounded(p@, TICK_BOUND as int) && vec_bounded(v@, TICK_BOUND as int) {
                let tb = TICK_BOUND as int;
                lemma_mul_bound(v@.x, p@.den, tb, tb);
                lemma_mul_bound(v@.y, p@.den, tb, tb);
                lemma_mul_bound(v@.z, p@.den, tb, tb);
                lemma_mul_bound(p@.x, v@.den, tb, tb);
                lemma_mul_bound(p@.y, v@.den, tb, tb);
                lemma_mul_bound(p@.z, v@.den, tb, tb);
                lemma_mul_bound(v@.den, self@.den, tb, rb);
                lemma_mul_bound(p@.x, v@.den * self@.den, tb, tb * rb);
                lemma_mul_bound(p@.y, v@.den * self@.den, tb, tb * rb);
                lemma_mul_bound(p@.z, v@.den * self@.den, tb, tb * rb);
                lemma_mul_bound(self@.xx, v@.x * p@.den - p@.x * v@.den, rb, 2 * (tb * tb));
                lemma_mul_bound(self@.xy, v@.y * p@.den - p@.y * v@.den, rb, 2 * (tb * tb));
                lemma_mul_bound(self@.xz, v@.z * p@.den - p@.z * v@.den, rb, 2 * (tb * tb));
                lemma_mul_bound(self@.yx, v@.x * p@.den - p@.x * v@.den, rb, 2 * (tb * tb));
                lemma_mul_bound(self@.yy, v@.y * p@.den - p@.y * v@.den, rb, 2 * (tb * tb));
                lemma_mul_bound(self@.yz, v@.z * p@.den - p@.z * v@.den, rb, 2 * (tb * tb));
                lemma_mul_bound(self@.zx, v@.x * p@.den - p@.x * v@.den, rb, 2 * (tb * tb));
                lemma_mul_bound(self@.zy, v@.y * p@.den - p@.y * v@.den, rb, 2 * (tb * tb));
                lemma_mul_bound(self@.zz, v@.z * p@.den - p@.z * v@.den, rb, 2 * (tb * tb));
                lemma_mul_bound(p@.den, v@.den * self@.den, tb, tb * rb);
            }
            lemma_mul_bound(v@.x, p@.den, pb, pb);
            lemma_mul_bound(v@.y, p@.den, pb, pb);
            lemma_mul_bound(v@.z, p@.den, pb, pb);
            lemma_mul_bound(p@.x, v@.den, pb, pb);
            lemma_mul_bound(p@.y, v@.den, pb, pb);
            lemma_mul_bound(p@.z, v@.den, pb, pb);
            lemma_mul_bound(v@.den, self@.den, pb, rb);
            lemma_mul_bound(p@.x, v@.den * self@.den, pb, pb * rb);
            lemma_mul_bound(p@.y, v@.den * self@.den, pb, pb * rb);
            lemma_mul_bound(p@.z, v@.den * self@.den, pb, pb * rb);
            lemma_mul_bound(self@.xx, v@.x * p@.den - p@.x * v@.den, rb, 2 * (pb * pb));
            lemma_mul_bound(self@.xy, v@.y * p@.den - p@.y * v@.den, rb, 2 * (pb * pb));
            lemma_mul_bound(self@.xz, v@.z * p@.den - p@.z * v@.den, rb, 2 * (pb * pb));
            lemma_mul_bound(self@.yx, v@.x * p@.den - p@.x * v@.den, rb, 2 * (pb * pb));
            lemma_mul_bound(self@.yy, v@.y * p@.den - p@.y * v@.den, rb, 2 * (pb * pb));
            lemma_mul_bound(self@.yz, v@.z * p@.den - p@.z * v@.den, rb, 2 * (pb * pb));
            lemma_mul_bound(self@.zx, v@.x * p@.den - p@.x * v@.den, rb, 2 * (pb * pb));
            lemma_mul_bound(self@.zy, v@.y * p@.den - p@.y * v@.den, rb, 2 * (pb * pb));
            lemma_mul_bound(self@.zz, v@.z * p@.den - p@.z * v@.den, rb, 2 * (pb * pb));
            lemma_mul_bound(p@.den, v@.den * self@.den, pb, pb * rb);
            assert(v@.den * self@.den >= 1) by (nonlinear_arith)
                requires
                    v@.den >= 1,
                    self@.den >= 1,
            ;
            assert(p@.den * (v@.den * self@.den) >= 1) by (nonlinear_arith)
                requires
                    p@.den >= 1,
                    v@.den * self@.den >= 1,
            ;
        }
        let dx = v.x * p.den - p.x * v.den;
        let dy = v.y * p.den - p.y * v.den;
        let dz = v.z * p.den - p.z * v.den;
        Vec3 {
            x: p.x * (v.den * self.den) + (self.xx * dx + self.xy * dy + self.xz * dz),
            y: p.y * (v.den * self.den) + (self.yx * dx + self.yy * dy + self.yz * dz),
            z: p.z * (v.den * self.den) + (self.zx * dx + self.zy * dy + self.zz * dz),
            den: p.den * (v.den * self.den),
        }
    }
}

} // verus!
