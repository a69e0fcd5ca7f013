//! A rigid body: a vertex buffer, an edge list, a reference location, an
//! embedded local frame and a display flag for that frame's rays. One
//! `rotate` or `translate` call applies the identical exact transform to
//! every vertex, to the location and to the local frame, so the body can
//! never shear or drift apart: all pairwise vertex distances and every
//! vertex-to-location distance are preserved exactly, over any sequence of
//! calls. That law is stated and proved at the end of this module.

use vstd::prelude::*;
use crate::rat::{Rat, RatV, rat_bounded, lemma_mul_bound};
use crate::vec3::{
    Vec3, Vec3V, vec_wf, vec_bounded, vec_is_zero, vec_is_unit, vadd, vscale, same_pt,
    dist_sq_eq, dist_sq_num,
};
use crate::rotor::{
    Angle, AngleV, angle_wf, angle_bounded, Rotor, RotorV, rotor_wf, rotor_bounded, rotor_spec,
    rotor_transpose, rot_about, lemma_rot_about_dist, lemma_translate_dist,
    lemma_rot_about_inverse, lemma_rot_about_fixed, lemma_rot_dir_inverse, POS_BOUND, ROT_BOUND,
    AXIS_BOUND, ANGLE_BOUND,
};
use crate::axes::{
    Axes, AxesV, axes_wf, axes_bounded, axes_rotated, axes_translated, axes_rotate_spec,
    axes_translate_spec, axes_default_spec, STEP_BOUND,
};

verus! {

/// An unordered pair of indices into a body's vertex buffer.
#[derive(Clone, Copy, Debug, PartialEq, Eq, Structural)]
pub struct Edge {
    pub a: usize,
    pub b: usize,
}

/// The ghost value of a body.
#[verifier::ext_equal]
pub struct BodyV {
    pub vertices: Seq<Vec3V>,
    pub edges: Seq<Edge>,
    pub location: Vec3V,
    pub local_axes: AxesV,
    pub axes_hidden: bool,
}

/// Every edge joins two distinct, in-range vertices.
pub open spec fn edges_valid(edges: Seq<Edge>, n: int) -> bool {
    forall|k: int|
        0 <= k < edges.len() ==> (edges[k].a as int) < n && (edges[k].b as int) < n
            && edges[k].a != edges[k].b
}

/// Well-formed: every stored vector has a positive denominator and every
/// edge is valid.
pub open spec fn body_wf(b: BodyV) -> bool {
    &&& forall|i: int| 0 <= i < b.vertices.len() ==> vec_wf(#[trigger] b.vertices[i])
    &&& vec_wf(b.location)
    &&& axes_wf(b.local_axes)
    &&& edges_valid(b.edges, b.vertices.len() as int)
}

/// All vertices and the location share one denominator: the representation
/// every transform preserves and the rigidity law builds on.
pub open spec fn body_uniform(b: BodyV) -> bool {
    forall|i: int| 0 <= i < b.vertices.len() ==> (#[trigger] b.vertices[i]).den == b.location.den
}

/// All stored magnitudes lie within `bound`.
pub open spec fn body_bounded(b: BodyV, bound: int) -> bool {
    &&& forall|i: int| 0 <= i < b.vertices.len() ==> vec_bounded(#[trigger] b.vertices[i], bound)
    &&& vec_bounded(b.location, bound)
    &&& axes_bounded(b.local_axes, bound)
}

/// The body turned by the rotor `r` about `pivot`: every vertex, the
/// location and the local frame receive the identical transform.
pub open spec fn body_rotated(b: BodyV, r: RotorV, pivot: Vec3V) -> BodyV {
    BodyV {
        vertices: b.vertices.map_values(|v: Vec3V| rot_about(r, pivot, v)),
        edges: b.edges,
        location: rot_about(r, pivot, b.location),
        local_axes: axes_rotated(b.local_axes, r, pivot),
        axes_hidden: b.axes_hidden,
    }
}

/// What `Shape3d::rotate` does: a zero axis (or a degenerate rotor, which
/// no actual axis/angle pair produces) is the identity.
pub open spec fn body_rotate_spec(b: BodyV, pivot: Vec3V, axis: Vec3V, angle: AngleV) -> BodyV {
    if vec_is_zero(axis) || !rotor_wf(rotor_spec(axis, angle)) {
        b
    } else {
        body_rotated(b, rotor_spec(axis, angle), pivot)
    }
}

/// The body moved by the displacement `delta`: every vertex, the location
/// and the local frame's location move identically.
pub open spec fn body_translated(b: BodyV, delta: Vec3V) -> BodyV {
    BodyV {
        vertices: b.vertices.map_values(|v: Vec3V| vadd(v, delta)),
        edges: b.edges,
        location: vadd(b.location, delta),
        local_axes: axes_translated(b.local_axes, delta),
        axes_hidden: b.axes_hidden,
    }
}

/// What `Shape3d::translate` does: a zero direction is the identity,
/// otherwise everything moves by `direction * distance`.
pub open spec fn body_translate_spec(b: BodyV, direction: Vec3V, distance: RatV) -> BodyV {
    if vec_is_zero(direction) {
        b
    } else {
        body_translated(b, vscale(direction, distance))
    }
}

/// An executable rigid body.
#[derive(Clone, Debug, PartialEq)]
pub struct Shape3d {
    pub vertices: Vec<Vec3>,
    pub edges: Vec<Edge>,
    pub location: Vec3,
    pub local_axes: Axes,
    pub axes_hidden: bool,
}

impl View for Shape3d {
    type V = BodyV;

    open spec fn view(&self) -> BodyV {
        BodyV {
            vertices: self.vertices@.map_values(|v: Vec3| v@),
            edges: self.edges@,
            location: self.location@,
            local_axes: self.local_axes@,
            axes_hidden: self.axes_hidden,
        }
    }
}

impl Shape3d {
    /// Well-formed: see `body_wf`.
    pub open spec fn wf(self) -> bool {
        body_wf(self@)
    }

    /// All stored magnitudes lie within `bound`.
    pub open spec fn bounded(self, bound: int) -> bool {
        body_bounded(self@, bound)
    }

    /// Every stored vector has a positive denominator; nothing is said
    /// about the edge list.
    pub open spec fn wf_positions(self) -> bool {
        &&& forall|i: int| 0 <= i < self@.vertices.len() ==> vec_wf(#[trigger] self@.vertices[i])
        &&& vec_wf(self@.location)
        &&& axes_wf(self@.local_axes)
    }

    /// Whether every stored magnitude lies within `b`.
    pub fn is_bounded(&self, b: i128) -> (r: bool)
        requires
            b >= 0,
        ensures
            r == body_bounded(self@, b as int),
    {
        let mut i: usize = 0;
        while i < self.vertices.len()
            invariant
                i <= self.vertices.len(),
                b >= 0,
                forall|j: int| 0 <= j < i ==> vec_bounded(#[trigger] self@.vertices[j], b as int),
            decreases self.vertices.len() - i,
        {
            proof {
                assert(self.vertices@[i as int]@ == self@.vertices[i as int]);
            }
            if !self.vertices[i].is_bounded(b) {
                proof {
                    assert(!vec_bounded(self@.vertices[i as int], b as int));
                }
                return false;
            }
            i = i + 1;
        }
        self.location.is_bounded(b) && self.local_axes.is_bounded(b)
    }

    /// The empty body: no vertices, no edges, the default frame at the
    /// origin.
    pub fn default() -> (r: Shape3d)
        ensures
            r@.vertices.len() == 0,
            r@.edges.len() == 0,
            r@.location == (Vec3V { x: 0, y: 0, z: 0, den: 1 }),
            r@.local_axes == axes_default_spec(),
            r@.axes_hidden == true,
            r.wf(),
    {
        Shape3d {
            vertices: Vec::new(),
            edges: Vec::new(),
            location: Vec3::zero(),
            local_axes: Axes::default(),
            axes_hidden: true,
        }
    }

    /// Builds a body after validating it outright: every denominator must
    /// be positive and every edge must join two distinct in-range vertices.
    /// Malformed geometry is rejected here, not discovered while drawing.
    pub fn new(vertices: Vec<Vec3>, edges: Vec<Edge>, location: Vec3) -> (r: Option<Shape3d>)
        ensures
            r is Some <==> {
                &&& forall|i: int|
                    0 <= i < vertices@.len() ==> vec_wf(#[trigger] vertices@[i]@)
                &&& vec_wf(location@)
                &&& edges_valid(edges@, vertices@.len() as int)
            },
            r is Some ==> r->0@ == (BodyV {
                vertices: vertices@.map_values(|v: Vec3| v@),
                edges: edges@,
                location: location@,
                local_axes: AxesV {
                    x: Vec3V { x: 1, y: 0, z: 0, den: 1 },
                    y: Vec3V { x: 0, y: 1, z: 0, den: 1 },
                    z: Vec3V { x: 0, y: 0, z: 1, den: 1 },
                    location: location@,
                },
                axes_hidden: true,
            }),
            r is Some ==> r->0.wf(),
    {
        if location.den < 1 {
            return None;
        }
        let mut i: usize = 0;
        while i < vertices.len()
            invariant
                i <= vertices.len(),
                forall|j: int| 0 <= j < i ==> vec_wf(#[trigger] vertices@[j]@),
            decreases vertices.len() - i,
        {
            if vertices[i].den < 1 {
                proof {
                    assert(!vec_wf(vertices@[i as int]@));
                }
                return None;
            }
            i = i + 1;
        }
        let mut k: usize = 0;
        while k < edges.len()
            invariant
                k <= edges.len(),
                forall|j: int|
                    0 <= j < k ==> (edges@[j].a as int) < vertices@.len()
                        && (edges@[j].b as int) < vertices@.len() && edges@[j].a != edges@[j].b,
            decreases edges.len() - k,
        {
            let e = edges[k];
            if e.a >= vertices.len() || e.b >= vertices.len() || e.a == e.b {
                proof {
                    assert(!((edges@[k as int].a as int) < vertices@.len()
                        && (edges@[k as int].b as int) < vertices@.len()
                        && edges@[k as int].a != edges@[k as int].b));
                }
                return None;
            }
            k = k + 1;
        }
        let local_axes = Axes::new(
            Vec3::from_ints(1, 0, 0),
            Vec3::from_ints(0, 1, 0),
            Vec3::from_ints(0, 0, 1),
            location,
        );
        Some(Shape3d { vertices, edges, location, local_axes, axes_hidden: true })
    }

    /// Makes the local frame's rays visible when the body is drawn.
    pub fn show_axes(&mut self)
        ensures
            final(self)@ == (BodyV { axes_hidden: false, ..old(self)@ }),
    {
        self.axes_hidden = false;
    }

    /// Hides the local frame's rays.
    pub fn hide_axes(&mut self)
        ensures
            final(self)@ == (BodyV { axes_hidden: true, ..old(self)@ }),
    {
        self.axes_hidden = true;
    }

    /// The body's reference location.
    pub fn location(&self) -> (r: Vec3)
        ensures
            r@ == self@.location,
    {
        self.location
    }

    /// The vertex buffer.
    pub fn vertices(&self) -> (r: &Vec<Vec3>)
        ensures
            r@.map_values(|v: Vec3| v@) == self@.vertices,
    {
        &self.vertices
    }

    /// Turns the body by an already-built rotor about `pivot`: vertices,
    /// location and local frame all at once.
    pub fn rotate_with(&mut self, rot: &Rotor, pivot: &Vec3)
        requires
            old(self).bounded(POS_BOUND as int),
            pivot.bounded(POS_BOUND as int),
            rot.bounded(ROT_BOUND as int),
        ensures
            final(self)@ == body_rotated(old(self)@, rot@, pivot@),
            old(self).bounded(crate::rotor::TICK_BOUND as int) && vec_bounded(
                pivot@,
                crate::rotor::TICK_BOUND as int,
            ) ==> body_bounded(final(self)@, crate::vec3::WIDE_BOUND as int),
    {
        let ghost tight = old(self).bounded(crate::rotor::TICK_BOUND as int) && vec_bounded(
            pivot@,
            crate::rotor::TICK_BOUND as int,
        );
        self.local_axes.rotate_with(rot, pivot);
        let ghost orig = old(self)@.vertices;
        let mut i: usize = 0;
        while i < self.vertices.len()
            invariant
                i <= self.vertices.len(),
                self.vertices@.len() == orig.len(),
                forall|j: int|
                    0 <= j < i ==> #[trigger] self.vertices@[j]@ == rot_about(
                        rot@,
                        pivot@,
                        orig[j],
                    ),
                forall|j: int| i <= j < orig.len() ==> #[trigger] self.vertices@[j]@ == orig[j],
                forall|j: int|
                    0 <= j < orig.len() ==> vec_bounded(#[trigger] orig[j], POS_BOUND as int),
                forall|j: int|
                    tight && 0 <= j < orig.len() ==> vec_bounded(#[trigger] orig[j],
                    crate::rotor::TICK_BOUND as int),
                forall|j: int|
                    tight && 0 <= j < i ==> vec_bounded(#[trigger] self.vertices@[j]@,
                    crate::vec3::WIDE_BOUND as int),
                tight ==> vec_bounded(pivot@, crate::rotor::TICK_BOUND as int),
                pivot.bounded(POS_BOUND as int),
                rot.bounded(ROT_BOUND as int),
                self.edges@ == old(self).edges@,
                self.location == old(self).location,
                self.local_axes@ == axes_rotated(old(self)@.local_axes, rot@, pivot@),
                self.axes_hidden == old(self).axes_hidden,
            decreases self.vertices.len() - i,
        {
            let v = self.vertices[i];
            let w = rot.rotate_about(pivot, &v);
            self.vertices.set(i, w);
            i = i + 1;
        }
        self.location = rot.rotate_about(pivot, &self.location);
        proof {
            assert(self@.vertices =~= orig.map_values(|v: Vec3V| rot_about(rot@, pivot@, v)));
        }
    }

    /// Turns the body by `angle` about the axis through `rotation_center`.
    /// A zero axis is a defined identity case, not an error.
    pub fn rotate(&mut self, rotation_center: &Vec3, rotation_axis: &Vec3, angle: &Angle)
        requires
            old(self).bounded(POS_BOUND as int),
            rotation_center.bounded(POS_BOUND as int),
            rotation_axis.wf(),
            vec_is_zero(rotation_axis@) || vec_is_unit(rotation_axis@),
            vec_bounded(rotation_axis@, AXIS_BOUND as int),
            angle.wf(),
            angle_bounded(angle@, ANGLE_BOUND as int),
        ensures
            final(self)@ == body_rotate_spec(old(self)@, rotation_center@, rotation_axis@, angle@),
            old(self).bounded(crate::rotor::TICK_BOUND as int) && vec_bounded(
                rotation_center@,
                crate::rotor::TICK_BOUND as int,
            ) ==> body_bounded(final(self)@, crate::vec3::WIDE_BOUND as int),
    {
        if rotation_axis.is_zero() {
            return ;
        }
        let rot_opt = Rotor::from_axis_angle(rotation_axis, angle);
        match rot_opt {
            Some(rot) => {
                self.rotate_with(&rot, rotation_center);
            },
            None => {},
        }
    }

    /// Moves the body by `distance` along the unit `direction`: vertices,
    /// location and local frame all at once. A zero direction is a defined
    /// identity case, not an error.
    pub fn translate(&mut self, translation_axis: &Vec3, distance: &Rat)
        requires
            old(self).bounded(crate::vec3::WIDE_BOUND as int),
            translation_axis.wf(),
            vec_is_zero(translation_axis@) || vec_is_unit(translation_axis@),
            vec_bounded(translation_axis@, AXIS_BOUND as int),
            distance.wf(),
            rat_bounded(distance@, STEP_BOUND as int),
        ensures
            final(self)@ == body_translate_spec(old(self)@, translation_axis@, distance@),
    {
        if translation_axis.is_zero() {
            return ;
        }
        proof {
            lemma_mul_bound(translation_axis@.x, distance@.num, AXIS_BOUND as int,
                STEP_BOUND as int);
            lemma_mul_bound(translation_axis@.y, distance@.num, AXIS_BOUND as int,
                STEP_BOUND as int);
            lemma_mul_bound(translation_axis@.z, distance@.num, AXIS_BOUND as int,
                STEP_BOUND as int);
            lemma_mul_bound(translation_axis@.den, distance@.den, AXIS_BOUND as int,
                STEP_BOUND as int);
        }
        let delta = translation_axis.scale(distance);
        self.local_axes.location = self.local_axes.location.add_wide(&delta);
        let ghost orig = old(self)@.vertices;
        let mut i: usize = 0;
        while i < self.vertices.len()
            invariant
                i <= self.vertices.len(),
                self.vertices@.len() == orig.len(),
                delta.bounded(crate::vec3::DELTA_BOUND as int),
                delta@ == vscale(translation_axis@, distance@),
                forall|j: int|
                    0 <= j < i ==> #[trigger] self.vertices@[j]@ == vadd(orig[j], delta@),
                forall|j: int| i <= j < orig.len() ==> #[trigger] self.vertices@[j]@ == orig[j],
                forall|j: int|
                    0 <= j < orig.len() ==> vec_bounded(#[trigger] orig[j],
                    crate::vec3::WIDE_BOUND as int),
                self.edges@ == old(self).edges@,
                self.location == old(self).location,
                self.local_axes@ == axes_translated(old(self)@.local_axes, delta@),
                self.axes_hidden == old(self).axes_hidden,
            decreases self.vertices.len() - i,
        {
            let v = self.vertices[i];
            let w = v.add_wide(&delta);
            self.vertices.set(i, w);
            i = i + 1;
        }
        self.location = self.location.add_wide(&delta);
        proof {
            assert(self@.vertices =~= orig.map_values(|v: Vec3V| vadd(v, delta@)));
        }
    }
}

// ----------------------------------------------------------------------
// The rigidity law.
// ----------------------------------------------------------------------

/// One primitive rigid motion: a rotation by a well-formed rotor about a
/// pivot, or a translation by a displacement.
pub enum RigidOp {
    Rotate(RotorV, Vec3V),
    Translate(Vec3V),
}

/// Well-formed: the rotor is an exact orthogonal operator and every vector
/// has a positive denominator.
pub open spec fn op_wf(op: RigidOp) -> bool {
    match op {
        RigidOp::Rotate(r, pivot) => rotor_wf(r) && vec_wf(pivot),
        RigidOp::Translate(delta) => vec_wf(delta),
    }
}

/// The motion applied to a single point.
pub open spec fn apply_op_point(op: RigidOp, v: Vec3V) -> Vec3V {
    match op {
        RigidOp::Rotate(r, pivot) => rot_about(r, pivot, v),
        RigidOp::Translate(delta) => vadd(v, delta),
    }
}

/// A whole sequence of motions applied to a single point, first first.
pub open spec fn apply_ops_point(ops: Seq<RigidOp>, v: Vec3V) -> Vec3V
    decreases ops.len(),
{
    if ops.len() == 0 {
        v
    } else {
        apply_ops_point(ops.drop_first(), apply_op_point(ops[0], v))
    }
}

/// Exact equality of squared-distance ratios is transitive; the
/// denominators are positive, so the common factor cancels.
proof fn lemma_ratio_trans(n2: int, s2: int, n1: int, s1: int, n0: int, s0: int)
    by (nonlinear_arith)
    requires
        n2 * s1 == n1 * s2,
        n1 * s0 == n0 * s1,
        s1 >= 1,
    ensures
        n2 * s0 == n0 * s2,
{
}

/// A product of two positive factors is positive.
proof fn lemma_pos_mul(a: int, b: int)
    by (nonlinear_arith)
    requires
        a >= 1,
        b >= 1,
    ensures
        a * b >= 1,
{
}

/// One rigid motion keeps two points (sharing a denominator) at the same
/// exact squared distance, and keeps their denominators shared.
proof fn lemma_rigid_step(op: RigidOp, a: Vec3V, b: Vec3V)
    requires
        op_wf(op),
        vec_wf(a),
        vec_wf(b),
        a.den == b.den,
    ensures
        dist_sq_eq(apply_op_point(op, a), apply_op_point(op, b), a, b),
        vec_wf(apply_op_point(op, a)),
        vec_wf(apply_op_point(op, b)),
        apply_op_point(op, a).den == apply_op_point(op, b).den,
{
    match op {
        RigidOp::Rotate(r, pivot) => {
            lemma_rot_about_dist(r, pivot, a, b);
            lemma_pos_mul(a.den, r.den);
            lemma_pos_mul(pivot.den, a.den * r.den);
            assert(pivot.den * (a.den * r.den) >= 1);
        },
        RigidOp::Translate(delta) => {
            lemma_translate_dist(a, b, delta);
            lemma_pos_mul(a.den, delta.den);
        },
    }
}

/// **Rigidity.** Any sequence of rotations and translations, applied to two
/// points that share a denominator, preserves their exact squared distance:
/// `dist^2` after equals `dist^2` before, as rational numbers. Applied
/// across a body's vertices and location this is the no-shear, no-drift
/// guarantee.
pub proof fn lemma_rigid_motion(ops: Seq<RigidOp>, a: Vec3V, b: Vec3V)
    requires
        vec_wf(a),
        vec_wf(b),
        a.den == b.den,
        forall|k: int| 0 <= k < ops.len() ==> op_wf(#[trigger] ops[k]),
    ensures
        dist_sq_eq(apply_ops_point(ops, a), apply_ops_point(ops, b), a, b),
        vec_wf(apply_ops_point(ops, a)),
        vec_wf(apply_ops_point(ops, b)),
        apply_ops_point(ops, a).den == apply_ops_point(ops, b).den,
    decreases ops.len(),
{
    if ops.len() == 0 {
    } else {
        let a1 = apply_op_point(ops[0], a);
        let b1 = apply_op_point(ops[0], b);
        lemma_rigid_step(ops[0], a, b);
        assert(forall|k: int|
            0 <= k < ops.drop_first().len() ==> op_wf(#[trigger] ops.drop_first()[k]));
        lemma_rigid_motion(ops.drop_first(), a1, b1);
        let a2 = apply_ops_point(ops.drop_first(), a1);
        let b2 = apply_ops_point(ops.drop_first(), b1);
        lemma_pos_mul(a1.den, b1.den);
        lemma_pos_mul(a1.den * b1.den, a1.den * b1.den);
        lemma_ratio_trans(
            dist_sq_num(a2, b2),
            (a2.den * b2.den) * (a2.den * b2.den),
            dist_sq_num(a1, b1),
            (a1.den * b1.den) * (a1.den * b1.den),
            dist_sq_num(a, b),
            (a.den * b.den) * (a.den * b.den),
        );
    }
}

/// **Invertibility.** Rotating a point about a pivot and then rotating by
/// the opposite angle (the transposed rotor) about the same pivot restores
/// the point exactly.
pub proof fn lemma_rotation_inverts(r: RotorV, pivot: Vec3V, v: Vec3V)
    requires
        rotor_wf(r),
        vec_wf(pivot),
        vec_wf(v),
    ensures
        same_pt(rot_about(rotor_transpose(r), pivot, rot_about(r, pivot, v)), v),
{
    lemma_rot_about_inverse(r, pivot, v);
}

/// One motion applied to a whole body.
pub open spec fn body_apply_op(b: BodyV, op: RigidOp) -> BodyV {
    match op {
        RigidOp::Rotate(r, pivot) => body_rotated(b, r, pivot),
        RigidOp::Translate(delta) => body_translated(b, delta),
    }
}

/// A whole sequence of motions applied to a whole body, first first.
pub open spec fn body_apply_ops(b: BodyV, ops: Seq<RigidOp>) -> BodyV
    decreases ops.len(),
{
    if ops.len() == 0 {
        b
    } else {
        body_apply_ops(body_apply_op(b, ops[0]), ops.drop_first())
    }
}

/// Applying motions to a body moves each tracked point exactly as the
/// pointwise application does.
proof fn lemma_body_apply_index(b: BodyV, ops: Seq<RigidOp>)
    ensures
        body_apply_ops(b, ops).vertices.len() == b.vertices.len(),
        forall|i: int|
            0 <= i < b.vertices.len() ==> #[trigger] body_apply_ops(b, ops).vertices[i]
                == apply_ops_point(ops, b.vertices[i]),
        body_apply_ops(b, ops).location == apply_ops_point(ops, b.location),
    decreases ops.len(),
{
    if ops.len() > 0 {
        let b1 = body_apply_op(b, ops[0]);
        assert(b1.vertices.len() == b.vertices.len());
        assert(forall|i: int|
            0 <= i < b.vertices.len() ==> #[trigger] b1.vertices[i] == apply_op_point(
                ops[0],
                b.vertices[i],
            ));
        lemma_body_apply_index(b1, ops.drop_first());
    }
}

/// **Rigidity, at the body level.** Any sequence of rotations and
/// translations preserves, exactly, every pairwise vertex distance and
/// every vertex-to-location distance of a body whose points share one
/// denominator: the mesh can never shear or drift apart.
pub proof fn lemma_body_rigidity(b: BodyV, ops: Seq<RigidOp>)
    requires
        forall|i: int| 0 <= i < b.vertices.len() ==> vec_wf(#[trigger] b.vertices[i]),
        vec_wf(b.location),
        body_uniform(b),
        forall|k: int| 0 <= k < ops.len() ==> op_wf(#[trigger] ops[k]),
    ensures
        body_apply_ops(b, ops).vertices.len() == b.vertices.len(),
        forall|i: int, j: int|
            0 <= i < b.vertices.len() && 0 <= j < b.vertices.len() ==> dist_sq_eq(
                #[trigger] body_apply_ops(b, ops).vertices[i],
                #[trigger] body_apply_ops(b, ops).vertices[j],
                b.vertices[i],
                b.vertices[j],
            ),
        forall|i: int|
            0 <= i < b.vertices.len() ==> dist_sq_eq(
                #[trigger] body_apply_ops(b, ops).vertices[i],
                body_apply_ops(b, ops).location,
                b.vertices[i],
                b.location,
            ),
{
    lemma_body_apply_index(b, ops);
    let b1 = body_apply_ops(b, ops);
    assert forall|i: int, j: int|
        0 <= i < b.vertices.len() && 0 <= j < b.vertices.len() implies dist_sq_eq(
        #[trigger] b1.vertices[i],
        #[trigger] b1.vertices[j],
        b.vertices[i],
        b.vertices[j],
    ) by {
        lemma_rigid_motion(ops, b.vertices[i], b.vertices[j]);
    };
    assert forall|i: int| 0 <= i < b.vertices.len() implies dist_sq_eq(
        #[trigger] b1.vertices[i],
        b1.location,
        b.vertices[i],
        b.location,
    ) by {
        lemma_rigid_motion(ops, b.vertices[i], b.location);
    };
}

/// Rigid motions preserve the shared-denominator representation, so the
/// rigidity law keeps applying, tick after tick.
pub proof fn lemma_motion_preserves_uniform(b: BodyV, op: RigidOp)
    requires
        body_uniform(b),
    ensures
        body_uniform(body_apply_op(b, op)),
{
    match op {
        RigidOp::Rotate(r, pivot) => {
            let b1 = body_rotated(b, r, pivot);
            assert forall|i: int| 0 <= i < b1.vertices.len() implies (#[trigger] b1.vertices[i]).den
                == b1.location.den by {
                assert(b1.vertices[i] == rot_about(r, pivot, b.vertices[i]));
            };
        },
        RigidOp::Translate(delta) => {
            let b1 = body_translated(b, delta);
            assert forall|i: int| 0 <= i < b1.vertices.len() implies (#[trigger] b1.vertices[i]).den
                == b1.location.den by {
                assert(b1.vertices[i] == vadd(b.vertices[i], delta));
            };
        },
    }
}

/// Every factory shape starts with all vertices and the location on one
/// shared denominator.
pub proof fn lemma_factories_uniform(s: RatV, l: Vec3V)
    ensures
        body_uniform(cube_spec(s, l)),
        body_uniform(tetrahedron_spec(s, l)),
        body_uniform(octahedron_spec(s, l)),
        body_uniform(dodecahedron_spec(s, l)),
        body_uniform(icosahedron_spec(s, l)),
{
    assert(s.den * l.den == l.den * s.den) by (nonlinear_arith);
    assert(((s.den * (PHI_NUM as int)) * (PHI_DEN as int)) * l.den == l.den * ((s.den
        * (PHI_NUM as int)) * (PHI_DEN as int))) by (nonlinear_arith);
}

/// **Invertibility, at the body level.** Rotating a body by an angle about
/// a pivot and then by the opposite angle about the same pivot and axis
/// restores every vertex, the location and the local orientation exactly.
pub proof fn lemma_body_rotation_inverts(b: BodyV, pivot: Vec3V, axis: Vec3V, angle: AngleV)
    requires
        angle_wf(angle),
        vec_wf(pivot),
        vec_wf(b.location),
        forall|i: int| 0 <= i < b.vertices.len() ==> vec_wf(#[trigger] b.vertices[i]),
        vec_wf(b.local_axes.x),
        vec_wf(b.local_axes.y),
        vec_wf(b.local_axes.z),
    ensures
        ({
            let back = body_rotate_spec(
                body_rotate_spec(b, pivot, axis, angle),
                pivot,
                axis,
                AngleV { cos: angle.cos, sin: -angle.sin, den: angle.den },
            );
            &&& back.vertices.len() == b.vertices.len()
            &&& forall|i: int|
                0 <= i < b.vertices.len() ==> same_pt(#[trigger] back.vertices[i], b.vertices[i])
            &&& same_pt(back.location, b.location)
            &&& same_pt(back.local_axes.x, b.local_axes.x)
            &&& same_pt(back.local_axes.y, b.local_axes.y)
            &&& same_pt(back.local_axes.z, b.local_axes.z)
        }),
{
    let neg = AngleV { cos: angle.cos, sin: -angle.sin, den: angle.den };
    crate::rotor::lemma_opposite_angle_transposes(axis, angle);
    if vec_is_zero(axis) || !rotor_wf(rotor_spec(axis, angle)) {
        // Both calls are the identity; a point coincides with itself.
    } else {
        let r = rotor_spec(axis, angle);
        let rt = rotor_transpose(r);
        let fwd = body_rotated(b, r, pivot);
        let back = body_rotated(fwd, rt, pivot);
        assert(rotor_wf(rt));
        assert forall|i: int| 0 <= i < b.vertices.len() implies same_pt(
            #[trigger] back.vertices[i],
            b.vertices[i],
        ) by {
            assert(fwd.vertices[i] == rot_about(r, pivot, b.vertices[i]));
            lemma_rot_about_inverse(r, pivot, b.vertices[i]);
        };
        lemma_rot_about_inverse(r, pivot, b.location);
        lemma_rot_dir_inverse(r, b.local_axes.x);
        lemma_rot_dir_inverse(r, b.local_axes.y);
        lemma_rot_dir_inverse(r, b.local_axes.z);
    }
}

/// **Local-pivot self-invariance.** Rotating a body about its own location
/// leaves that location exactly in place: the pivot subtraction cancels.
pub proof fn lemma_local_pivot_fixes_location(b: BodyV, r: RotorV)
    requires
        rotor_wf(r),
        vec_wf(b.location),
    ensures
        same_pt(body_rotated(b, r, b.location).location, b.location),
{
    lemma_rot_about_fixed(r, b.location);
}

// ----------------------------------------------------------------------
// The canonical factory shapes.
// ----------------------------------------------------------------------

/// Numerator of the rational stand-in for the golden ratio used by the
/// dodecahedron and icosahedron factories. The golden ratio itself is
/// irrational, so exact arithmetic works with the close Fibonacci quotient
/// `144 / 89`; the bodies built from it are rigid regardless.
pub const PHI_NUM: i128 = 144;

/// Denominator of the rational stand-in for the golden ratio.
pub const PHI_DEN: i128 = 89;

/// Bound on the scale and placement magnitudes accepted by the factories.
pub const FACTORY_BOUND: i128 = 0x2000;

/// The canonical cube of the given scale, its vertices pre-translated
/// by the placement offset `l`, over one shared denominator.
pub open spec fn cube_spec(s: RatV, l: Vec3V) -> BodyV {
    let loc = vscale(l, RatV { num: s.den, den: s.den });
    BodyV {
        vertices: Seq::empty()
            .push(vadd(Vec3V { x: s.num, y: s.num, z: s.num, den: s.den }, l))
            .push(vadd(Vec3V { x: s.num, y: s.num, z: -(s.num), den: s.den }, l))
            .push(vadd(Vec3V { x: s.num, y: -(s.num), z: s.num, den: s.den }, l))
            .push(vadd(Vec3V { x: s.num, y: -(s.num), z: -(s.num), den: s.den }, l))
            .push(vadd(Vec3V { x: -(s.num), y: s.num, z: s.num, den: s.den }, l))
            .push(vadd(Vec3V { x: -(s.num), y: s.num, z: -(s.num), den: s.den }, l))
            .push(vadd(Vec3V { x: -(s.num), y: -(s.num), z: s.num, den: s.den }, l))
            .push(vadd(Vec3V { x: -(s.num), y: -(s.num), z: -(s.num), den: s.den }, l)),
        edges: Seq::empty()
            .push(Edge { a: 0, b: 1 })
            .push(Edge { a: 0, b: 2 })
            .push(Edge { a: 0, b: 4 })
            .push(Edge { a: 1, b: 3 })
            .push(Edge { a: 1, b: 5 })
            .push(Edge { a: 2, b: 3 })
            .push(Edge { a: 2, b: 6 })
            .push(Edge { a: 3, b: 7 })
            .push(Edge { a: 4, b: 5 })
            .push(Edge { a: 4, b: 6 })
            .push(Edge { a: 5, b: 7 })
            .push(Edge { a: 6, b: 7 }),
        location: loc,
        local_axes: AxesV {
            x: Vec3V { x: 1, y: 0, z: 0, den: 1 },
            y: Vec3V { x: 0, y: 1, z: 0, den: 1 },
            z: Vec3V { x: 0, y: 0, z: 1, den: 1 },
            location: loc,
        },
        axes_hidden: true,
    }
}

/// Builds the canonical cube: scaled corners pre-translated by the
/// placement offset, with the location and the local frame set to that
/// offset.
pub fn cube(scale: &Rat, location: &Vec3) -> (r: Shape3d)
    requires
        scale.wf(),
        rat_bounded(scale@, FACTORY_BOUND as int),
        location.wf(),
        vec_bounded(location@, FACTORY_BOUND as int),
    ensures
        r@ == cube_spec(scale@, location@),
{
    let mut vertices: Vec<Vec3> = Vec::new();
    vertices.push(Vec3 { x: scale.num, y: scale.num, z: scale.num, den: scale.den }.add(location));
    vertices.push(Vec3 { x: scale.num, y: scale.num, z: -(scale.num), den: scale.den }.add(location));
    vertices.push(Vec3 { x: scale.num, y: -(scale.num), z: scale.num, den: scale.den }.add(location));
    vertices.push(Vec3 { x: scale.num, y: -(scale.num), z: -(scale.num), den: scale.den }.add(location));
    vertices.push(Vec3 { x: -(scale.num), y: scale.num, z: scale.num, den: scale.den }.add(location));
    vertices.push(Vec3 { x: -(scale.num), y: scale.num, z: -(scale.num), den: scale.den }.add(location));
    vertices.push(Vec3 { x: -(scale.num), y: -(scale.num), z: scale.num, den: scale.den }.add(location));
    vertices.push(Vec3 { x: -(scale.num), y: -(scale.num), z: -(scale.num), den: scale.den }.add(location));
    let mut edges: Vec<Edge> = Vec::new();
    edges.push(Edge { a: 0, b: 1 });
    edges.push(Edge { a: 0, b: 2 });
    edges.push(Edge { a: 0, b: 4 });
    edges.push(Edge { a: 1, b: 3 });
    edges.push(Edge { a: 1, b: 5 });
    edges.push(Edge { a: 2, b: 3 });
    edges.push(Edge { a: 2, b: 6 });
    edges.push(Edge { a: 3, b: 7 });
    edges.push(Edge { a: 4, b: 5 });
    edges.push(Edge { a: 4, b: 6 });
    edges.push(Edge { a: 5, b: 7 });
    edges.push(Edge { a: 6, b: 7 });
    let loc = location.scale(&Rat { num: scale.den, den: scale.den });
    let local_axes = Axes::new(
        Vec3::from_ints(1, 0, 0),
        Vec3::from_ints(0, 1, 0),
        Vec3::from_ints(0, 0, 1),
        loc,
    );
    let r = Shape3d { vertices, edges, location: loc, local_axes, axes_hidden: true };
    proof {
        assert(r@.vertices =~= cube_spec(scale@, location@).vertices);
        assert(r@.edges =~= cube_spec(scale@, location@).edges);
        assert(r@ =~~= cube_spec(scale@, location@));
    }
    r
}

/// The canonical tetrahedron of the given scale, its vertices pre-translated
/// by the placement offset `l`, over one shared denominator.
pub open spec fn tetrahedron_spec(s: RatV, l: Vec3V) -> BodyV {
    let loc = vscale(l, RatV { num: s.den, den: s.den });
    BodyV {
        vertices: Seq::empty()
            .push(vadd(Vec3V { x: s.num, y: s.num, z: s.num, den: s.den }, l))
            .push(vadd(Vec3V { x: -(s.num), y: -(s.num), z: s.num, den: s.den }, l))
            .push(vadd(Vec3V { x: -(s.num), y: s.num, z: -(s.num), den: s.den }, l))
            .push(vadd(Vec3V { x: s.num, y: -(s.num), z: -(s.num), den: s.den }, l)),
        edges: Seq::empty()
            .push(Edge { a: 0, b: 1 })
            .push(Edge { a: 0, b: 2 })
            .push(Edge { a: 0, b: 3 })
            .push(Edge { a: 1, b: 2 })
            .push(Edge { a: 1, b: 3 })
            .push(Edge { a: 2, b: 3 }),
        location: loc,
        local_axes: AxesV {
            x: Vec3V { x: 1, y: 0, z: 0, den: 1 },
            y: Vec3V { x: 0, y: 1, z: 0, den: 1 },
            z: Vec3V { x: 0, y: 0, z: 1, den: 1 },
            location: loc,
        },
        axes_hidden: true,
    }
}

/// Builds the canonical tetrahedron: scaled corners pre-translated by the
/// placement offset, with the location and the local frame set to that
/// offset.
pub fn tetrahedron(scale: &Rat, location: &Vec3) -> (r: Shape3d)
    requires
        scale.wf(),
        rat_bounded(scale@, FACTORY_BOUND as int),
        location.wf(),
        vec_bounded(location@, FACTORY_BOUND as int),
    ensures
        r@ == tetrahedron_spec(scale@, location@),
{
    let mut vertices: Vec<Vec3> = Vec::new();
    vertices.push(Vec3 { x: scale.num, y: scale.num, z: scale.num, den: scale.den }.add(location));
    vertices.push(Vec3 { x: -(scale.num), y: -(scale.num), z: scale.num, den: scale.den }.add(location));
    vertices.push(Vec3 { x: -(scale.num), y: scale.num, z: -(scale.num), den: scale.den }.add(location));
    vertices.push(Vec3 { x: scale.num, y: -(scale.num), z: -(scale.num), den: scale.den }.add(location));
    let mut edges: Vec<Edge> = Vec::new();
    edges.push(Edge { a: 0, b: 1 });
    edges.push(Edge { a: 0, b: 2 });
    edges.push(Edge { a: 0, b: 3 });
    edges.push(Edge { a: 1, b: 2 });
    edges.push(Edge { a: 1, b: 3 });
    edges.push(Edge { a: 2, b: 3 });
    let loc = location.scale(&Rat { num: scale.den, den: scale.den });
    let local_axes = Axes::new(
        Vec3::from_ints(1, 0, 0),
        Vec3::from_ints(0, 1, 0),
        Vec3::from_ints(0, 0, 1),
        loc,
    );
    let r = Shape3d { vertices, edges, location: loc, local_axes, axes_hidden: true };
    proof {
        assert(r@.vertices =~= tetrahedron_spec(scale@, location@).vertices);
        assert(r@.edges =~= tetrahedron_spec(scale@, location@).edges);
        assert(r@ =~~= tetrahedron_spec(scale@, location@));
    }
    r
}

/// The canonical octahedron of the given scale, its vertices pre-translated
/// by the placement offset `l`, over one shared denominator.
pub open spec fn octahedron_spec(s: RatV, l: Vec3V) -> BodyV {
    let loc = vscale(l, RatV { num: s.den, den: s.den });
    BodyV {
        vertices: Seq::empty()
            .push(vadd(Vec3V { x: s.num, y: 0, z: 0, den: s.den }, l))
            .push(vadd(Vec3V { x: -(s.num), y: 0, z: 0, den: s.den }, l))
            .push(vadd(Vec3V { x: 0, y: s.num, z: 0, den: s.den }, l))
            .push(vadd(Vec3V { x: 0, y: -(s.num), z: 0, den: s.den }, l))
            .push(vadd(Vec3V { x: 0, y: 0, z: s.num, den: s.den }, l))
            .push(vadd(Vec3V { x: 0, y: 0, z: -(s.num), den: s.den }, l)),
        edges: Seq::empty()
            .push(Edge { a: 0, b: 2 })
            .push(Edge { a: 0, b: 3 })
            .push(Edge { a: 0, b: 4 })
            .push(Edge { a: 0, b: 5 })
            .push(Edge { a: 1, b: 2 })
            .push(Edge { a: 1, b: 3 })
            .push(Edge { a: 1, b: 4 })
            .push(Edge { a: 1, b: 5 })
            .push(Edge { a: 2, b: 4 })
            .push(Edge { a: 2, b: 5 })
            .push(Edge { a: 3, b: 4 })
            .push(Edge { a: 3, b: 5 }),
        location: loc,
        local_axes: AxesV {
            x: Vec3V { x: 1, y: 0, z: 0, den: 1 },
            y: Vec3V { x: 0, y: 1, z: 0, den: 1 },
            z: Vec3V { x: 0, y: 0, z: 1, den: 1 },
            location: loc,
        },
        axes_hidden: true,
    }
}

/// Builds the canonical octahedron: scaled corners pre-translated by the
/// placement offset, with the location and the local frame set to that
/// offset.
pub fn octahedron(scale: &Rat, location: &Vec3) -> (r: Shape3d)
    requires
        scale.wf(),
        rat_bounded(scale@, FACTORY_BOUND as int),
        location.wf(),
        vec_bounded(location@, FACTORY_BOUND as int),
    ensures
        r@ == octahedron_spec(scale@, location@),
{
    let mut vertices: Vec<Vec3> = Vec::new();
    vertices.push(Vec3 { x: scale.num, y: 0, z: 0, den: scale.den }.add(location));
    vertices.push(Vec3 { x: -(scale.num), y: 0, z: 0, den: scale.den }.add(location));
    vertices.push(Vec3 { x: 0, y: scale.num, z: 0, den: scale.den }.add(location));
    vertices.push(Vec3 { x: 0, y: -(scale.num), z: 0, den: scale.den }.add(location));
    vertices.push(Vec3 { x: 0, y: 0, z: scale.num, den: scale.den }.add(location));
    vertices.push(Vec3 { x: 0, y: 0, z: -(scale.num), den: scale.den }.add(location));
    let mut edges: Vec<Edge> = Vec::new();
    edges.push(Edge { a: 0, b: 2 });
    edges.push(Edge { a: 0, b: 3 });
    edges.push(Edge { a: 0, b: 4 });
    edges.push(Edge { a: 0, b: 5 });
    edges.push(Edge { a: 1, b: 2 });
    edges.push(Edge { a: 1, b: 3 });
    edges.push(Edge { a: 1, b: 4 });
    edges.push(Edge { a: 1, b: 5 });
    edges.push(Edge { a: 2, b: 4 });
    edges.push(Edge { a: 2, b: 5 });
    edges.push(Edge { a: 3, b: 4 });
    edges.push(Edge { a: 3, b: 5 });
    let loc = location.scale(&Rat { num: scale.den, den: scale.den });
    let local_axes = Axes::new(
        Vec3::from_ints(1, 0, 0),
        Vec3::from_ints(0, 1, 0),
        Vec3::from_ints(0, 0, 1),
        loc,
    );
    let r = Shape3d { vertices, edges, location: loc, local_axes, axes_hidden: true };
    proof {
        assert(r@.vertices =~= octahedron_spec(scale@, location@).vertices);
        assert(r@.edges =~= octahedron_spec(scale@, location@).edges);
        assert(r@ =~~= octahedron_spec(scale@, location@));
    }
    r
}

/// The canonical dodecahedron of the given scale, its vertices pre-translated
/// by the placement offset `l`, over one shared denominator.
pub open spec fn dodecahedron_spec(s: RatV, l: Vec3V) -> BodyV {
    let loc = vscale(l, RatV { num: (s.den * (PHI_NUM as int)) * (PHI_DEN as int), den: (s.den * (PHI_NUM as int)) * (PHI_DEN as int) });
    BodyV {
        vertices: Seq::empty()
            .push(vadd(Vec3V { x: (s.num * (PHI_NUM as int)) * (PHI_DEN as int), y: (s.num * (PHI_NUM as int)) * (PHI_DEN as int), z: (s.num * (PHI_NUM as int)) * (PHI_DEN as int), den: (s.den * (PHI_NUM as int)) * (PHI_DEN as int) }, l))
            .push(vadd(Vec3V { x: (s.num * (PHI_NUM as int)) * (PHI_DEN as int), y: (s.num * (PHI_NUM as int)) * (PHI_DEN as int), z: -((s.num * (PHI_NUM as int)) * (PHI_DEN as int)), den: (s.den * (PHI_NUM as int)) * (PHI_DEN as int) }, l))
            .push(vadd(Vec3V { x: (s.num * (PHI_NUM as int)) * (PHI_DEN as int), y: -((s.num * (PHI_NUM as int)) * (PHI_DEN as int)), z: (s.num * (PHI_NUM as int)) * (PHI_DEN as int), den: (s.den * (PHI_NUM as int)) * (PHI_DEN as int) }, l))
            .push(vadd(Vec3V { x: (s.num * (PHI_NUM as int)) * (PHI_DEN as int), y: -((s.num * (PHI_NUM as int)) * (PHI_DEN as int)), z: -((s.num * (PHI_NUM as int)) * (PHI_DEN as int)), den: (s.den * (PHI_NUM as int)) * (PHI_DEN as int) }, l))
            .push(vadd(Vec3V { x: -((s.num * (PHI_NUM as int)) * (PHI_DEN as int)), y: (s.num * (PHI_NUM as int)) * (PHI_DEN as int), z: (s.num * (PHI_NUM as int)) * (PHI_DEN as int), den: (s.den * (PHI_NUM as int)) * (PHI_DEN as int) }, l))
            .push(vadd(Vec3V { x: -((s.num * (PHI_NUM as int)) * (PHI_DEN as int)), y: (s.num * (PHI_NUM as int)) * (PHI_DEN as int), z: -((s.num * (PHI_NUM as int)) * (PHI_DEN as int)), den: (s.den * (PHI_NUM as int)) * (PHI_DEN as int) }, l))
            .push(vadd(Vec3V { x: -((s.num * (PHI_NUM as int)) * (PHI_DEN as int)), y: -((s.num * (PHI_NUM as int)) * (PHI_DEN as int)), z: (s.num * (PHI_NUM as int)) * (PHI_DEN as int), den: (s.den * (PHI_NUM as int)) * (PHI_DEN as int) }, l))
            .push(vadd(Vec3V { x: -((s.num * (PHI_NUM as int)) * (PHI_DEN as int)), y: -((s.num * (PHI_NUM as int)) * (PHI_DEN as int)), z: -((s.num * (PHI_NUM as int)) * (PHI_DEN as int)), den: (s.den * (PHI_NUM as int)) * (PHI_DEN as int) }, l))
            .push(vadd(Vec3V { x: 0, y: (s.num * (PHI_DEN as int)) * (PHI_DEN as int), z: (s.num * (PHI_NUM as int)) * (PHI_NUM as int), den: (s.den * (PHI_NUM as int)) * (PHI_DEN as int) }, l))
            .push(vadd(Vec3V { x: 0, y: (s.num * (PHI_DEN as int)) * (PHI_DEN as int), z: -((s.num * (PHI_NUM as int)) * (PHI_NUM as int)), den: (s.den * (PHI_NUM as int)) * (PHI_DEN as int) }, l))
            .push(vadd(Vec3V { x: 0, y: -((s.num * (PHI_DEN as int)) * (PHI_DEN as int)), z: (s.num * (PHI_NUM as int)) * (PHI_NUM as int), den: (s.den * (PHI_NUM as int)) * (PHI_DEN as int) }, l))
            .push(vadd(Vec3V { x: 0, y: -((s.num * (PHI_DEN as int)) * (PHI_DEN as int)), z: -((s.num * (PHI_NUM as int)) * (PHI_NUM as int)), den: (s.den * (PHI_NUM as int)) * (PHI_DEN as int) }, l))
            .push(vadd(Vec3V { x: (s.num * (PHI_DEN as int)) * (PHI_DEN as int), y: (s.num * (PHI_NUM as int)) * (PHI_NUM as int), z: 0, den: (s.den * (PHI_NUM as int)) * (PHI_DEN as int) }, l))
            .push(vadd(Vec3V { x: (s.num * (PHI_DEN as int)) * (PHI_DEN as int), y: -((s.num * (PHI_NUM as int)) * (PHI_NUM as int)), z: 0, den: (s.den * (PHI_NUM as int)) * (PHI_DEN as int) }, l))
            .push(vadd(Vec3V { x: -((s.num * (PHI_DEN as int)) * (PHI_DEN as int)), y: (s.num * (PHI_NUM as int)) * (PHI_NUM as int), z: 0, den: (s.den * (PHI_NUM as int)) * (PHI_DEN as int) }, l))
            .push(vadd(Vec3V { x: -((s.num * (PHI_DEN as int)) * (PHI_DEN as int)), y: -((s.num * (PHI_NUM as int)) * (PHI_NUM as int)), z: 0, den: (s.den * (PHI_NUM as int)) * (PHI_DEN as int) }, l))
            .push(vadd(Vec3V { x: (s.num * (PHI_NUM as int)) * (PHI_NUM as int), y: 0, z: (s.num * (PHI_DEN as int)) * (PHI_DEN as int), den: (s.den * (PHI_NUM as int)) * (PHI_DEN as int) }, l))
            .push(vadd(Vec3V { x: (s.num * (PHI_NUM as int)) * (PHI_NUM as int), y: 0, z: -((s.num * (PHI_DEN as int)) * (PHI_DEN as int)), den: (s.den * (PHI_NUM as int)) * (PHI_DEN as int) }, l))
            .push(vadd(Vec3V { x: -((s.num * (PHI_NUM as int)) * (PHI_NUM as int)), y: 0, z: (s.num * (PHI_DEN as int)) * (PHI_DEN as int), den: (s.den * (PHI_NUM as int)) * (PHI_DEN as int) }, l))
            .push(vadd(Vec3V { x: -((s.num * (PHI_NUM as int)) * (PHI_NUM as int)), y: 0, z: -((s.num * (PHI_DEN as int)) * (PHI_DEN as int)), den: (s.den * (PHI_NUM as int)) * (PHI_DEN as int) }, l)),
        edges: Seq::empty()
            .push(Edge { a: 0, b: 8 })
            .push(Edge { a: 0, b: 12 })
            .push(Edge { a: 0, b: 16 })
            .push(Edge { a: 1, b: 9 })
            .push(Edge { a: 1, b: 12 })
            .push(Edge { a: 1, b: 17 })
            .push(Edge { a: 2, b: 10 })
            .push(Edge { a: 2, b: 13 })
            .push(Edge { a: 2, b: 16 })
            .push(Edge { a: 3, b: 11 })
            .push(Edge { a: 3, b: 13 })
            .push(Edge { a: 3, b: 17 })
            .push(Edge { a: 4, b: 8 })
            .push(Edge { a: 4, b: 14 })
            .push(Edge { a: 4, b: 18 })
            .push(Edge { a: 5, b: 9 })
            .push(Edge { a: 5, b: 14 })
            .push(Edge { a: 5, b: 19 })
            .push(Edge { a: 6, b: 10 })
            .push(Edge { a: 6, b: 15 })
            .push(Edge { a: 6, b: 18 })
            .push(Edge { a: 7, b: 11 })
            .push(Edge { a: 7, b: 15 })
            .push(Edge { a: 7, b: 19 })
            .push(Edge { a: 8, b: 10 })
            .push(Edge { a: 9, b: 11 })
            .push(Edge { a: 12, b: 14 })
            .push(Edge { a: 13, b: 15 })
            .push(Edge { a: 16, b: 17 })
            .push(Edge { a: 18, b: 19 }),
        location: loc,
        local_axes: AxesV {
            x: Vec3V { x: 1, y: 0, z: 0, den: 1 },
            y: Vec3V { x: 0, y: 1, z: 0, den: 1 },
            z: Vec3V { x: 0, y: 0, z: 1, den: 1 },
            location: loc,
        },
        axes_hidden: true,
    }
}

/// Builds the canonical dodecahedron: scaled corners pre-translated by the
/// placement offset, with the location and the local frame set to that
/// offset.
pub fn dodecahedron(scale: &Rat, location: &Vec3) -> (r: Shape3d)
    requires
        scale.wf(),
        rat_bounded(scale@, FACTORY_BOUND as int),
        location.wf(),
        vec_bounded(location@, FACTORY_BOUND as int),
    ensures
        r@ == dodecahedron_spec(scale@, location@),
{
    proof {
        lemma_mul_bound(scale@.num, PHI_NUM as int, FACTORY_BOUND as int, PHI_NUM as int);
        lemma_mul_bound(scale@.num * (PHI_NUM as int), PHI_DEN as int,
            FACTORY_BOUND as int * (PHI_NUM as int), PHI_DEN as int);
        lemma_mul_bound(scale@.num * (PHI_NUM as int), PHI_NUM as int,
            FACTORY_BOUND as int * (PHI_NUM as int), PHI_NUM as int);
        lemma_mul_bound(scale@.num, PHI_DEN as int, FACTORY_BOUND as int, PHI_DEN as int);
        lemma_mul_bound(scale@.num * (PHI_DEN as int), PHI_DEN as int,
            FACTORY_BOUND as int * (PHI_DEN as int), PHI_DEN as int);
        lemma_mul_bound(scale@.den, PHI_NUM as int, FACTORY_BOUND as int, PHI_NUM as int);
        lemma_mul_bound(scale@.den * (PHI_NUM as int), PHI_DEN as int,
            FACTORY_BOUND as int * (PHI_NUM as int), PHI_DEN as int);
        assert(scale@.den * (PHI_NUM as int) >= 1) by (nonlinear_arith)
            requires
                scale@.den >= 1,
        ;
        assert((scale@.den * (PHI_NUM as int)) * (PHI_DEN as int) >= 1) by (nonlinear_arith)
            requires
                scale@.den * (PHI_NUM as int) >= 1,
        ;
    }
    let va = (scale.num * PHI_NUM) * PHI_DEN;
    let vb = (scale.num * PHI_NUM) * PHI_NUM;
    let vc = (scale.num * PHI_DEN) * PHI_DEN;
    let d0 = (scale.den * PHI_NUM) * PHI_DEN;
    let mut vertices: Vec<Vec3> = Vec::new();
    vertices.push(Vec3 { x: va, y: va, z: va, den: d0 }.add(location));
    vertices.push(Vec3 { x: va, y: va, z: -(va), den: d0 }.add(location));
    vertices.push(Vec3 { x: va, y: -(va), z: va, den: d0 }.add(location));
    vertices.push(Vec3 { x: va, y: -(va), z: -(va), den: d0 }.add(location));
    vertices.push(Vec3 { x: -(va), y: va, z: va, den: d0 }.add(location));
    vertices.push(Vec3 { x: -(va), y: va, z: -(va), den: d0 }.add(location));
    vertices.push(Vec3 { x: -(va), y: -(va), z: va, den: d0 }.add(location));
    vertices.push(Vec3 { x: -(va), y: -(va), z: -(va), den: d0 }.add(location));
    vertices.push(Vec3 { x: 0, y: vc, z: vb, den: d0 }.add(location));
    vertices.push(Vec3 { x: 0, y: vc, z: -(vb), den: d0 }.add(location));
    vertices.push(Vec3 { x: 0, y: -(vc), z: vb, den: d0 }.add(location));
    vertices.push(Vec3 { x: 0, y: -(vc), z: -(vb), den: d0 }.add(location));
    vertices.push(Vec3 { x: vc, y: vb, z: 0, den: d0 }.add(location));
    vertices.push(Vec3 { x: vc, y: -(vb), z: 0, den: d0 }.add(location));
    vertices.push(Vec3 { x: -(vc), y: vb, z: 0, den: d0 }.add(location));
    vertices.push(Vec3 { x: -(vc), y: -(vb), z: 0, den: d0 }.add(location));
    vertices.push(Vec3 { x: vb, y: 0, z: vc, den: d0 }.add(location));
    vertices.push(Vec3 { x: vb, y: 0, z: -(vc), den: d0 }.add(location));
    vertices.push(Vec3 { x: -(vb), y: 0, z: vc, den: d0 }.add(location));
    vertices.push(Vec3 { x: -(vb), y: 0, z: -(vc), den: d0 }.add(location));
    let mut edges: Vec<Edge> = Vec::new();
    edges.push(Edge { a: 0, b: 8 });
    edges.push(Edge { a: 0, b: 12 });
    edges.push(Edge { a: 0, b: 16 });
    edges.push(Edge { a: 1, b: 9 });
    edges.push(Edge { a: 1, b: 12 });
    edges.push(Edge { a: 1, b: 17 });
    edges.push(Edge { a: 2, b: 10 });
    edges.push(Edge { a: 2, b: 13 });
    edges.push(Edge { a: 2, b: 16 });
    edges.push(Edge { a: 3, b: 11 });
    edges.push(Edge { a: 3, b: 13 });
    edges.push(Edge { a: 3, b: 17 });
    edges.push(Edge { a: 4, b: 8 });
    edges.push(Edge { a: 4, b: 14 });
    edges.push(Edge { a: 4, b: 18 });
    edges.push(Edge { a: 5, b: 9 });
    edges.push(Edge { a: 5, b: 14 });
    edges.push(Edge { a: 5, b: 19 });
    edges.push(Edge { a: 6, b: 10 });
    edges.push(Edge { a: 6, b: 15 });
    edges.push(Edge { a: 6, b: 18 });
    edges.push(Edge { a: 7, b: 11 });
    edges.push(Edge { a: 7, b: 15 });
    edges.push(Edge { a: 7, b: 19 });
    edges.push(Edge { a: 8, b: 10 });
    edges.push(Edge { a: 9, b: 11 });
    edges.push(Edge { a: 12, b: 14 });
    edges.push(Edge { a: 13, b: 15 });
    edges.push(Edge { a: 16, b: 17 });
    edges.push(Edge { a: 18, b: 19 });
    let loc = location.scale(&Rat { num: d0, den: d0 });
    let local_axes = Axes::new(
        Vec3::from_ints(1, 0, 0),
        Vec3::from_ints(0, 1, 0),
        Vec3::from_ints(0, 0, 1),
        loc,
    );
    let r = Shape3d { vertices, edges, location: loc, local_axes, axes_hidden: true };
    proof {
        assert(r@.vertices =~= dodecahedron_spec(scale@, location@).vertices);
        assert(r@.edges =~= dodecahedron_spec(scale@, location@).edges);
        assert(r@ =~~= dodecahedron_spec(scale@, location@));
    }
    r
}

/// The canonical icosahedron of the given scale, its vertices pre-translated
/// by the placement offset `l`, over one shared denominator.
pub open spec fn icosahedron_spec(s: RatV, l: Vec3V) -> BodyV {
    let loc = vscale(l, RatV { num: (s.den * (PHI_NUM as int)) * (PHI_DEN as int), den: (s.den * (PHI_NUM as int)) * (PHI_DEN as int) });
    BodyV {
        vertices: Seq::empty()
            .push(vadd(Vec3V { x: 0, y: (s.num * (PHI_NUM as int)) * (PHI_DEN as int), z: (s.num * (PHI_NUM as int)) * (PHI_NUM as int), den: (s.den * (PHI_NUM as int)) * (PHI_DEN as int) }, l))
            .push(vadd(Vec3V { x: 0, y: (s.num * (PHI_NUM as int)) * (PHI_DEN as int), z: -((s.num * (PHI_NUM as int)) * (PHI_NUM as int)), den: (s.den * (PHI_NUM as int)) * (PHI_DEN as int) }, l))
            .push(vadd(Vec3V { x: 0, y: -((s.num * (PHI_NUM as int)) * (PHI_DEN as int)), z: (s.num * (PHI_NUM as int)) * (PHI_NUM as int), den: (s.den * (PHI_NUM as int)) * (PHI_DEN as int) }, l))
            .push(vadd(Vec3V { x: 0, y: -((s.num * (PHI_NUM as int)) * (PHI_DEN as int)), z: -((s.num * (PHI_NUM as int)) * (PHI_NUM as int)), den: (s.den * (PHI_NUM as int)) * (PHI_DEN as int) }, l))
            .push(vadd(Vec3V { x: (s.num * (PHI_NUM as int)) * (PHI_DEN as int), y: (s.num * (PHI_NUM as int)) * (PHI_NUM as int), z: 0, den: (s.den * (PHI_NUM as int)) * (PHI_DEN as int) }, l))
            .push(vadd(Vec3V { x: (s.num * (PHI_NUM as int)) * (PHI_DEN as int), y: -((s.num * (PHI_NUM as int)) * (PHI_NUM as int)), z: 0, den: (s.den * (PHI_NUM as int)) * (PHI_DEN as int) }, l))
            .push(vadd(Vec3V { x: -((s.num * (PHI_NUM as int)) * (PHI_DEN as int)), y: (s.num * (PHI_NUM as int)) * (PHI_NUM as int), z: 0, den: (s.den * (PHI_NUM as int)) * (PHI_DEN as int) }, l))
            .push(vadd(Vec3V { x: -((s.num * (PHI_NUM as int)) * (PHI_DEN as int)), y: -((s.num * (PHI_NUM as int)) * (PHI_NUM as int)), z: 0, den: (s.den * (PHI_NUM as int)) * (PHI_DEN as int) }, l))
            .push(vadd(Vec3V { x: (s.num * (PHI_NUM as int)) * (PHI_NUM as int), y: 0, z: (s.num * (PHI_NUM as int)) * (PHI_DEN as int), den: (s.den * (PHI_NUM as int)) * (PHI_DEN as int) }, l))
            .push(vadd(Vec3V { x: (s.num * (PHI_NUM as int)) * (PHI_NUM as int), y: 0, z: -((s.num * (PHI_NUM as int)) * (PHI_DEN as int)), den: (s.den * (PHI_NUM as int)) * (PHI_DEN as int) }, l))
            .push(vadd(Vec3V { x: -((s.num * (PHI_NUM as int)) * (PHI_NUM as int)), y: 0, z: (s.num * (PHI_NUM as int)) * (PHI_DEN as int), den: (s.den * (PHI_NUM as int)) * (PHI_DEN as int) }, l))
            .push(vadd(Vec3V { x: -((s.num * (PHI_NUM as int)) * (PHI_NUM as int)), y: 0, z: -((s.num * (PHI_NUM as int)) * (PHI_DEN as int)), den: (s.den * (PHI_NUM as int)) * (PHI_DEN as int) }, l)),
        edges: Seq::empty()
            .push(Edge { a: 0, b: 2 })
            .push(Edge { a: 0, b: 4 })
            .push(Edge { a: 0, b: 6 })
            .push(Edge { a: 0, b: 8 })
            .push(Edge { a: 0, b: 10 })
            .push(Edge { a: 1, b: 3 })
            .push(Edge { a: 1, b: 4 })
            .push(Edge { a: 1, b: 6 })
            .push(Edge { a: 1, b: 9 })
            .push(Edge { a: 1, b: 11 })
            .push(Edge { a: 2, b: 5 })
            .push(Edge { a: 2, b: 7 })
            .push(Edge { a: 2, b: 8 })
            .push(Edge { a: 2, b: 10 })
            .push(Edge { a: 3, b: 5 })
            .push(Edge { a: 3, b: 7 })
            .push(Edge { a: 3, b: 9 })
            .push(Edge { a: 3, b: 11 })
            .push(Edge { a: 4, b: 6 })
            .push(Edge { a: 4, b: 8 })
            .push(Edge { a: 4, b: 9 })
            .push(Edge { a: 5, b: 7 })
            .push(Edge { a: 5, b: 8 })
            .push(Edge { a: 5, b: 9 })
            .push(Edge { a: 6, b: 10 })
            .push(Edge { a: 6, b: 11 })
            .push(Edge { a: 7, b: 10 })
            .push(Edge { a: 7, b: 11 })
            .push(Edge { a: 8, b: 9 })
            .push(Edge { a: 10, b: 11 }),
        location: loc,
        local_axes: AxesV {
            x: Vec3V { x: 1, y: 0, z: 0, den: 1 },
            y: Vec3V { x: 0, y: 1, z: 0, den: 1 },
            z: Vec3V { x: 0, y: 0, z: 1, den: 1 },
            location: loc,
        },
        axes_hidden: true,
    }
}

/// Builds the canonical icosahedron: scaled corners pre-translated by the
/// placement offset, with the location and the local frame set to that
/// offset.
pub fn icosahedron(scale: &Rat, location: &Vec3) -> (r: Shape3d)
    requires
        scale.wf(),
        rat_bounded(scale@, FACTORY_BOUND as int),
        location.wf(),
        vec_bounded(location@, FACTORY_BOUND as int),
    ensures
        r@ == icosahedron_spec(scale@, location@),
{
    proof {
        lemma_mul_bound(scale@.num, PHI_NUM as int, FACTORY_BOUND as int, PHI_NUM as int);
        lemma_mul_bound(scale@.num * (PHI_NUM as int), PHI_DEN as int,
            FACTORY_BOUND as int * (PHI_NUM as int), PHI_DEN as int);
        lemma_mul_bound(scale@.num * (PHI_NUM as int), PHI_NUM as int,
            FACTORY_BOUND as int * (PHI_NUM as int), PHI_NUM as int);
        lemma_mul_bound(scale@.num, PHI_DEN as int, FACTORY_BOUND as int, PHI_DEN as int);
        lemma_mul_bound(scale@.num * (PHI_DEN as int), PHI_DEN as int,
            FACTORY_BOUND as int * (PHI_DEN as int), PHI_DEN as int);
        lemma_mul_bound(scale@.den, PHI_NUM as int, FACTORY_BOUND as int, PHI_NUM as int);
        lemma_mul_bound(scale@.den * (PHI_NUM as int), PHI_DEN as int,
            FACTORY_BOUND as int * (PHI_NUM as int), PHI_DEN as int);
        assert(scale@.den * (PHI_NUM as int) >= 1) by (nonlinear_arith)
            requires
                scale@.den >= 1,
        ;
        assert((scale@.den * (PHI_NUM as int)) * (PHI_DEN as int) >= 1) by (nonlinear_arith)
            requires
                scale@.den * (PHI_NUM as int) >= 1,
        ;
    }
    let va = (scale.num * PHI_NUM) * PHI_DEN;
    let vb = (scale.num * PHI_NUM) * PHI_NUM;
    let vc = (scale.num * PHI_DEN) * PHI_DEN;
    let d0 = (scale.den * PHI_NUM) * PHI_DEN;
    let mut vertices: Vec<Vec3> = Vec::new();
    vertices.push(Vec3 { x: 0, y: va, z: vb, den: d0 }.add(location));
    vertices.push(Vec3 { x: 0, y: va, z: -(vb), den: d0 }.add(location));
    vertices.push(Vec3 { x: 0, y: -(va), z: vb, den: d0 }.add(location));
    vertices.push(Vec3 { x: 0, y: -(va), z: -(vb), den: d0 }.add(location));
    vertices.push(Vec3 { x: va, y: vb, z: 0, den: d0 }.add(location));
    vertices.push(Vec3 { x: va, y: -(vb), z: 0, den: d0 }.add(location));
    vertices.push(Vec3 { x: -(va), y: vb, z: 0, den: d0 }.add(location));
    vertices.push(Vec3 { x: -(va), y: -(vb), z: 0, den: d0 }.add(location));
    vertices.push(Vec3 { x: vb, y: 0, z: va, den: d0 }.add(location));
    vertices.push(Vec3 { x: vb, y: 0, z: -(va), den: d0 }.add(location));
    vertices.push(Vec3 { x: -(vb), y: 0, z: va, den: d0 }.add(location));
    vertices.push(Vec3 { x: -(vb), y: 0, z: -(va), den: d0 }.add(location));
    let mut edges: Vec<Edge> = Vec::new();
    edges.push(Edge { a: 0, b: 2 });
    edges.push(Edge { a: 0, b: 4 });
    edges.push(Edge { a: 0, b: 6 });
    edges.push(Edge { a: 0, b: 8 });
    edges.push(Edge { a: 0, b: 10 });
    edges.push(Edge { a: 1, b: 3 });
    edges.push(Edge { a: 1, b: 4 });
    edges.push(Edge { a: 1, b: 6 });
    edges.push(Edge { a: 1, b: 9 });
    edges.push(Edge { a: 1, b: 11 });
    edges.push(Edge { a: 2, b: 5 });
    edges.push(Edge { a: 2, b: 7 });
    edges.push(Edge { a: 2, b: 8 });
    edges.push(Edge { a: 2, b: 10 });
    edges.push(Edge { a: 3, b: 5 });
    edges.push(Edge { a: 3, b: 7 });
    edges.push(Edge { a: 3, b: 9 });
    edges.push(Edge { a: 3, b: 11 });
    edges.push(Edge { a: 4, b: 6 });
    edges.push(Edge { a: 4, b: 8 });
    edges.push(Edge { a: 4, b: 9 });
    edges.push(Edge { a: 5, b: 7 });
    edges.push(Edge { a: 5, b: 8 });
    edges.push(Edge { a: 5, b: 9 });
    edges.push(Edge { a: 6, b: 10 });
    edges.push(Edge { a: 6, b: 11 });
    edges.push(Edge { a: 7, b: 10 });
    edges.push(Edge { a: 7, b: 11 });
    edges.push(Edge { a: 8, b: 9 });
    edges.push(Edge { a: 10, b: 11 });
    let loc = location.scale(&Rat { num: d0, den: d0 });
    let local_axes = Axes::new(
        Vec3::from_ints(1, 0, 0),
        Vec3::from_ints(0, 1, 0),
        Vec3::from_ints(0, 0, 1),
        loc,
    );
    let r = Shape3d { vertices, edges, location: loc, local_axes, axes_hidden: true };
    proof {
        assert(r@.vertices =~= icosahedron_spec(scale@, location@).vertices);
        assert(r@.edges =~= icosahedron_spec(scale@, location@).edges);
        assert(r@ =~~= icosahedron_spec(scale@, location@));
    }
    r
}

/// The canonical scene: one of each factory shape, at the canonical
/// placements and relative scales.
pub open spec fn platonic_solids_spec(s: RatV) -> Seq<BodyV> {
    Seq::empty()
        .push(cube_spec(s, Vec3V { x: 0, y: 0, z: 100, den: 1 }))
        .push(tetrahedron_spec(s, Vec3V { x: 200, y: 0, z: 100, den: 1 }))
        .push(octahedron_spec(
            RatV { num: s.num * 5, den: s.den * 4 },
            Vec3V { x: -200, y: 0, z: 100, den: 1 },
        ))
        .push(dodecahedron_spec(
            RatV { num: s.num * 3, den: s.den * 4 },
            Vec3V { x: 0, y: 200, z: 100, den: 1 },
        ))
        .push(icosahedron_spec(
            RatV { num: s.num * 3, den: s.den * 4 },
            Vec3V { x: 0, y: -200, z: 100, den: 1 },
        ))
}

/// Builds the canonical scene: one of each factory shape.
pub fn platonic_solids(scale: &Rat) -> (r: Vec<Shape3d>)
    requires
        scale.wf(),
        rat_bounded(scale@, 0x400),
    ensures
        r@.map_values(|b: Shape3d| b@) == platonic_solids_spec(scale@),
{
    proof {
        lemma_mul_bound(scale@.num, 5, 0x400, 5);
        lemma_mul_bound(scale@.den, 4, 0x400, 4);
        lemma_mul_bound(scale@.num, 3, 0x400, 3);
        assert(scale@.den * 4 >= 1) by (nonlinear_arith)
            requires
                scale@.den >= 1,
        ;
    }
    let big = Rat { num: scale.num * 5, den: scale.den * 4 };
    let small = Rat { num: scale.num * 3, den: scale.den * 4 };
    let mut r: Vec<Shape3d> = Vec::new();
    r.push(cube(scale, &Vec3::from_ints(0, 0, 100)));
    r.push(tetrahedron(scale, &Vec3::from_ints(200, 0, 100)));
    r.push(octahedron(&big, &Vec3::from_ints(-200, 0, 100)));
    r.push(dodecahedron(&small, &Vec3::from_ints(0, 200, 100)));
    r.push(icosahedron(&small, &Vec3::from_ints(0, -200, 100)));
    proof {
        assert(r@.map_values(|b: Shape3d| b@) =~= platonic_solids_spec(scale@));
    }
    r
}

} // verus!
