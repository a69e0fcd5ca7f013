//! A coordinate frame: an orientation given by three basis vectors plus a
//! location. Rotation turns the basis about its own direction (a pivot has
//! no effect on directions) and moves the location by the pivot-relative
//! rule; translation moves the location only. If the basis starts mutually
//! orthogonal and unit length it stays so after any sequence of rotations,
//! because one exact isometry is applied to all three vectors at once.

use vstd::prelude::*;
use crate::rat::{Rat, RatV, rat_bounded, LIN_BOUND};
use crate::vec3::{
    Vec3, Vec3V, vec_wf, vec_bounded, vec_is_zero, vec_is_unit, vadd, vscale, dot_num,
};
use crate::rotor::{
    Angle, AngleV, angle_wf, angle_bounded, Rotor, RotorV, rotor_wf, rotor_bounded, rotor_spec,
    rot_dir, rot_about, lemma_rot_dir_unit, lemma_rot_dir_dot, POS_BOUND, ROT_BOUND, AXIS_BOUND,
    ANGLE_BOUND,
};

verus! {

/// The ghost value of a frame.
#[verifier::ext_equal]
pub struct AxesV {
    pub x: Vec3V,
    pub y: Vec3V,
    pub z: Vec3V,
    pub location: Vec3V,
}

/// Well-formed: every component vector has a positive denominator.
pub open spec fn axes_wf(f: AxesV) -> bool {
    vec_wf(f.x) && vec_wf(f.y) && vec_wf(f.z) && vec_wf(f.location)
}

/// All component magnitudes lie within `b`.
pub open spec fn axes_bounded(f: AxesV, b: int) -> bool {
    &&& vec_bounded(f.x, b)
    &&& vec_bounded(f.y, b)
    &&& vec_bounded(f.z, b)
    &&& vec_bounded(f.location, b)
}

/// The basis is exactly orthonormal: three unit vectors, pairwise
/// orthogonal.
pub open spec fn axes_ortho(f: AxesV) -> bool {
    &&& vec_is_unit(f.x)
    &&& vec_is_unit(f.y)
    &&& vec_is_unit(f.z)
    &&& dot_num(f.x, f.y) == 0
    &&& dot_num(f.x, f.z) == 0
    &&& dot_num(f.y, f.z) == 0
}

/// The frame turned by the rotor `r` about `pivot`: the basis vectors turn
/// as directions, the location follows the pivot-relative rule.
pub open spec fn axes_rotated(f: AxesV, r: RotorV, pivot: Vec3V) -> AxesV {
    AxesV {
        x: rot_dir(r, f.x),
        y: rot_dir(r, f.y),
        z: rot_dir(r, f.z),
        location: rot_about(r, pivot, f.location),
    }
}

/// What `Axes::rotate` does: a zero axis is the identity; a degenerate
/// rotor (one whose scaled matrix fails the orthogonality check, which no
/// actual axis/angle pair produces) also leaves the frame unchanged.
pub open spec fn axes_rotate_spec(f: AxesV, pivot: Vec3V, axis: Vec3V, angle: AngleV) -> AxesV {
    if vec_is_zero(axis) || !rotor_wf(rotor_spec(axis, angle)) {
        f
    } else {
        axes_rotated(f, rotor_spec(axis, angle), pivot)
    }
}

/// The frame moved by the displacement `delta`: the location moves, the
/// orientation is unaffected by translation.
pub open spec fn axes_translated(f: AxesV, delta: Vec3V) -> AxesV {
    AxesV { x: f.x, y: f.y, z: f.z, location: vadd(f.location, delta) }
}

/// What `Axes::translate` does: a zero direction is the identity, otherwise
/// the location moves by `direction * distance` (the direction is already
/// unit length, so this is the normalized step of exactly `distance`).
pub open spec fn axes_translate_spec(f: AxesV, direction: Vec3V, distance: RatV) -> AxesV {
    if vec_is_zero(direction) {
        f
    } else {
        axes_translated(f, vscale(direction, distance))
    }
}

/// Exact normalization is possible: every basis vector is non-zero and
/// has a rational length.
pub open spec fn axes_normalizable(f: AxesV) -> bool {
    &&& !crate::vec3::vec_is_zero(f.x)
    &&& !crate::vec3::vec_is_zero(f.y)
    &&& !crate::vec3::vec_is_zero(f.z)
    &&& crate::vec3::is_perfect_square(crate::vec3::norm_sq_num(f.x))
    &&& crate::vec3::is_perfect_square(crate::vec3::norm_sq_num(f.y))
    &&& crate::vec3::is_perfect_square(crate::vec3::norm_sq_num(f.z))
}

/// The numerator of a vector's exact squared length.
fn norm_num(v: &Vec3) -> (r: i128)
    requires
        v.bounded(crate::vec3::DIST_BOUND as int),
    ensures
        r == crate::vec3::norm_sq_num(v@),
        0 <= r < 0x4000_0000_0000_0000,
    {
    proof {
        let db = crate::vec3::DIST_BOUND as int;
        crate::rat::lemma_mul_bound(v@.x, v@.x, db, db);
        crate::rat::lemma_mul_bound(v@.y, v@.y, db, db);
        crate::rat::lemma_mul_bound(v@.z, v@.z, db, db);
        crate::vec3::lemma_square_sign(v@.x);
        crate::vec3::lemma_square_sign(v@.y);
        crate::vec3::lemma_square_sign(v@.z);
    }
    v.x * v.x + v.y * v.y + v.z * v.z
}

/// The canonical default frame: the standard basis at the origin.
pub open spec fn axes_default_spec() -> AxesV {
    AxesV {
        x: Vec3V { x: 1, y: 0, z: 0, den: 1 },
        y: Vec3V { x: 0, y: 1, z: 0, den: 1 },
        z: Vec3V { x: 0, y: 0, z: 1, den: 1 },
        location: Vec3V { x: 0, y: 0, z: 0, den: 1 },
    }
}

/// Bound on the translation distance accepted by `Axes::translate`.
pub const STEP_BOUND: i128 = 0x10_0000;

/// An executable frame.
#[derive(Clone, Copy, Debug, PartialEq, Eq, Structural)]
pub struct Axes {
    pub x: Vec3,
    pub y: Vec3,
    pub z: Vec3,
    pub location: Vec3,
}

impl View for Axes {
    type V = AxesV;

    open spec fn view(&self) -> AxesV {
        AxesV { x: self.x@, y: self.y@, z: self.z@, location: self.location@ }
    }
}

impl Axes {
    /// Well-formed: every component vector has a positive denominator.
    pub open spec fn wf(self) -> bool {
        axes_wf(self@)
    }

    /// All component magnitudes lie within `b`.
    pub open spec fn bounded(self, b: int) -> bool {
        axes_bounded(self@, b)
    }

    /// Whether every component magnitude lies within `b`.
    pub fn is_bounded(&self, b: i128) -> (r: bool)
        requires
            b >= 0,
        ensures
            r == axes_bounded(self@, b as int),
    {
        self.x.is_bounded(b) && self.y.is_bounded(b) && self.z.is_bounded(b)
            && self.location.is_bounded(b)
    }

    /// Builds a frame from an explicit basis and location.
    pub fn new(x: Vec3, y: Vec3, z: Vec3, location: Vec3) -> (r: Axes)
        ensures
            r@ == (AxesV { x: x@, y: y@, z: z@, location: location@ }),
    {
        Axes { x, y, z, location }
    }

    /// The canonical default frame: the standard basis at the origin.
    pub fn default() -> (r: Axes)
        ensures
            r@ == axes_default_spec(),
            r.wf(),
            axes_ortho(r@),
    {
        Axes {
            x: Vec3::from_ints(1, 0, 0),
            y: Vec3::from_ints(0, 1, 0),
            z: Vec3::from_ints(0, 0, 1),
            location: Vec3::zero(),
        }
    }

    /// The first basis vector.
    pub fn x(&self) -> (r: &Vec3)
        ensures
            r@ == self@.x,
    {
        &self.x
    }

    /// The second basis vector.
    pub fn y(&self) -> (r: &Vec3)
        ensures
            r@ == self@.y,
    {
        &self.y
    }

    /// The third basis vector.
    pub fn z(&self) -> (r: &Vec3)
        ensures
            r@ == self@.z,
    {
        &self.z
    }

    /// The frame's location.
    pub fn location(&self) -> (r: Vec3)
        ensures
            r@ == self@.location,
    {
        self.location
    }

    /// Moves the frame's basis to exact unit length when exact arithmetic
    /// can: every basis vector must be non-zero and have a rational length
    /// (a perfect-square squared-length numerator). Directions are kept
    /// exactly; a frame that cannot be normalized exactly is left
    /// untouched, and zero-length vectors are never forced to unit length.
    pub fn normalize_if_possible(&mut self)
        requires
            old(self).bounded(crate::vec3::DIST_BOUND as int),
        ensures
            axes_normalizable(old(self)@) ==> {
                &&& final(self)@.x.x == old(self)@.x.x
                &&& final(self)@.x.y == old(self)@.x.y
                &&& final(self)@.x.z == old(self)@.x.z
                &&& vec_is_unit(final(self)@.x)
                &&& final(self)@.y.x == old(self)@.y.x
                &&& final(self)@.y.y == old(self)@.y.y
                &&& final(self)@.y.z == old(self)@.y.z
                &&& vec_is_unit(final(self)@.y)
                &&& final(self)@.z.x == old(self)@.z.x
                &&& final(self)@.z.y == old(self)@.z.y
                &&& final(self)@.z.z == old(self)@.z.z
                &&& vec_is_unit(final(self)@.z)
                &&& final(self)@.location == old(self)@.location
            },
            !axes_normalizable(old(self)@) ==> final(self)@ == old(self)@,
    {
        let nx = norm_num(&self.x);
        let ny = norm_num(&self.y);
        let nz = norm_num(&self.z);
        if self.x.is_zero() || self.y.is_zero() || self.z.is_zero() {
            return ;
        }
        if !(crate::vec3::check_perfect_square(nx) && crate::vec3::check_perfect_square(ny)
            && crate::vec3::check_perfect_square(nz)) {
            return ;
        }
        let kx = crate::vec3::isqrt(nx);
        let ky = crate::vec3::isqrt(ny);
        let kz = crate::vec3::isqrt(nz);
        proof {
            crate::vec3::lemma_isqrt_exact(nx as int, kx as int);
            crate::vec3::lemma_isqrt_exact(ny as int, ky as int);
            crate::vec3::lemma_isqrt_exact(nz as int, kz as int);
            crate::vec3::lemma_square_sign(self@.x.x);
            crate::vec3::lemma_square_sign(self@.x.y);
            crate::vec3::lemma_square_sign(self@.x.z);
            crate::vec3::lemma_square_sign(self@.y.x);
            crate::vec3::lemma_square_sign(self@.y.y);
            crate::vec3::lemma_square_sign(self@.y.z);
            crate::vec3::lemma_square_sign(self@.z.x);
            crate::vec3::lemma_square_sign(self@.z.y);
            crate::vec3::lemma_square_sign(self@.z.z);
            assert(kx as int >= 1 && ky as int >= 1 && kz as int >= 1);
        }
        self.x = Vec3 { x: self.x.x, y: self.x.y, z: self.x.z, den: kx };
        self.y = Vec3 { x: self.y.x, y: self.y.y, z: self.y.z, den: ky };
        self.z = Vec3 { x: self.z.x, y: self.z.y, z: self.z.z, den: kz };
    }

    /// Turns the frame by an already-built rotor about `pivot`.
    pub fn rotate_with(&mut self, rot: &Rotor, pivot: &Vec3)
        requires
            old(self).bounded(POS_BOUND as int),
            pivot.bounded(POS_BOUND as int),
            rot.bounded(ROT_BOUND as int),
        ensures
            final(self)@ == axes_rotated(old(self)@, rot@, pivot@),
            final(self).wf(),
            axes_bounded(old(self)@, crate::rotor::TICK_BOUND as int) && vec_bounded(
                pivot@,
                crate::rotor::TICK_BOUND as int,
            ) ==> axes_bounded(final(self)@, crate::vec3::WIDE_BOUND as int),
    {
        self.x = rot.rotate_dir(&self.x);
        self.y = rot.rotate_dir(&self.y);
        self.z = rot.rotate_dir(&self.z);
        self.location = rot.rotate_about(pivot, &self.location);
    }

    /// Turns the frame by `angle` about the axis through `rotation_center`.
    /// A zero axis is a defined identity case, not an error.
    pub fn rotate(&mut self, rotation_center: &Vec3, rotation_axis: &Vec3, angle: &Angle)
        requires
            old(self).bounded(POS_BOUND as int),
            rotation_center.bounded(POS_BOUND as int),
            rotation_axis.wf(),
            vec_is_zero(rotation_axis@) || vec_is_unit(rotation_axis@),
            vec_bounded(rotation_axis@, AXIS_BOUND as int),
            angle.wf(),
            angle_bounded(angle@, ANGLE_BOUND as int),
        ensures
            final(self)@ == axes_rotate_spec(old(self)@, rotation_center@, rotation_axis@, angle@),
            old(self).wf() ==> final(self).wf(),
            axes_bounded(old(self)@, crate::rotor::TICK_BOUND as int) && vec_bounded(
                rotation_center@,
                crate::rotor::TICK_BOUND as int,
            ) ==> axes_bounded(final(self)@, crate::vec3::WIDE_BOUND as int),
    {
        if rotation_axis.is_zero() {
            return ;
        }
        let rot_opt = Rotor::from_axis_angle(rotation_axis, angle);
        match rot_opt {
            Some(rot) => {
                self.rotate_with(&rot, rotation_center);
            },
            None => {},
        }
    }

    /// Moves the frame's location by `distance` along the unit `direction`;
    /// the orientation is unaffected. A zero direction is a defined
    /// identity case, not an error.
    pub fn translate(&mut self, translation_axis: &Vec3, distance: &Rat)
        requires
            old(self).location.bounded(crate::vec3::WIDE_BOUND as int),
            translation_axis.wf(),
            vec_is_zero(translation_axis@) || vec_is_unit(translation_axis@),
            vec_bounded(translation_axis@, AXIS_BOUND as int),
            distance.wf(),
            rat_bounded(distance@, STEP_BOUND as int),
        ensures
            final(self)@ == axes_translate_spec(old(self)@, translation_axis@, distance@),
            old(self).wf() ==> final(self).wf(),
    {
        if translation_axis.is_zero() {
            return ;
        }
        proof {
            crate::rat::lemma_mul_bound(translation_axis@.x, distance@.num, AXIS_BOUND as int,
                STEP_BOUND as int);
            crate::rat::lemma_mul_bound(translation_axis@.y, distance@.num, AXIS_BOUND as int,
                STEP_BOUND as int);
            crate::rat::lemma_mul_bound(translation_axis@.z, distance@.num, AXIS_BOUND as int,
                STEP_BOUND as int);
            crate::rat::lemma_mul_bound(translation_axis@.den, distance@.den, AXIS_BOUND as int,
                STEP_BOUND as int);
        }
        let delta = translation_axis.scale(distance);
        self.location = self.location.add_wide(&delta);
    }
}

/// Rotating a frame with an exactly orthonormal basis leaves the basis
/// exactly orthonormal: no drift, no shearing, over any number of steps.
pub proof fn lemma_axes_rotate_ortho(f: AxesV, r: RotorV, pivot: Vec3V)
    requires
        axes_wf(f),
        axes_ortho(f),
        rotor_wf(r),
    ensures
        axes_ortho(axes_rotated(f, r, pivot)),
{
    lemma_rot_dir_unit(r, f.x);
    lemma_rot_dir_unit(r, f.y);
    lemma_rot_dir_unit(r, f.z);
    lemma_rot_dir_dot(r, f.x, f.y);
    lemma_rot_dir_dot(r, f.x, f.z);
    lemma_rot_dir_dot(r, f.y, f.z);
}

} // verus!
