//! The orchestrator: the body collection, the shared world frame, the
//! per-tick rotation/translation parameters derived from sampled input,
//! and the rotation-mode state machine. Each tick applies one rotation and
//! one translation, with the same axis, angle, direction and distance, to
//! every body; the pivot depends on the mode, and in `CoordSystem` mode the
//! world frame itself receives the identical transform, so the frame that
//! gives directional input its meaning co-moves with the scene.

use vstd::prelude::*;
use crate::rat::{Rat, RatV, rat_bounded};
use crate::vec3::{Vec3, Vec3V, vec_wf, vec_bounded, vec_is_zero, vec_is_unit, vadd, vsub};
use crate::rotor::{Angle, AngleV, angle_wf, angle_bounded, POS_BOUND, AXIS_BOUND, ANGLE_BOUND};
use crate::axes::{Axes, AxesV, axes_wf, axes_bounded, axes_rotate_spec, axes_translate_spec,
    axes_default_spec, STEP_BOUND};
use crate::shape3d::{Shape3d, BodyV, body_wf, body_bounded, body_rotate_spec,
    body_translate_spec, platonic_solids, platonic_solids_spec};

verus! {

/// The rotation mode: which pivot every body turns about this tick, and
/// whether the world frame itself co-moves.
#[derive(Clone, Copy, Debug, PartialEq, Eq, Structural)]
pub enum Rotation {
    /// Every body turns about its own location.
    Local,
    /// Every body turns about the world frame's location; the frame holds
    /// still.
    Global,
    /// The same shared pivot as `Global`, but the world frame receives the
    /// identical rotation and translation, so later directional input is
    /// read against the moved frame.
    CoordSystem,
}

/// One tick's sampled input: the twelve directional commands, each a
/// signed contribution along one of the world frame's current basis
/// vectors.
#[derive(Clone, Copy, Debug)]
pub struct InputSnapshot {
    pub rot_x_pos: bool,
    pub rot_x_neg: bool,
    pub rot_y_pos: bool,
    pub rot_y_neg: bool,
    pub rot_z_pos: bool,
    pub rot_z_neg: bool,
    pub tr_x_pos: bool,
    pub tr_x_neg: bool,
    pub tr_y_pos: bool,
    pub tr_y_neg: bool,
    pub tr_z_pos: bool,
    pub tr_z_neg: bool,
}

impl InputSnapshot {
    /// The snapshot with no command active.
    pub fn none() -> (r: InputSnapshot)
        ensures
            !r.rot_x_pos && !r.rot_x_neg && !r.rot_y_pos && !r.rot_y_neg && !r.rot_z_pos
                && !r.rot_z_neg,
            !r.tr_x_pos && !r.tr_x_neg && !r.tr_y_pos && !r.tr_y_neg && !r.tr_z_pos
                && !r.tr_z_neg,
    {
        InputSnapshot {
            rot_x_pos: false,
            rot_x_neg: false,
            rot_y_pos: false,
            rot_y_neg: false,
            rot_z_pos: false,
            rot_z_neg: false,
            tr_x_pos: false,
            tr_x_neg: false,
            tr_y_pos: false,
            tr_y_neg: false,
            tr_z_pos: false,
            tr_z_neg: false,
        }
    }
}

/// Bound on the world frame's magnitudes accepted by input derivation:
/// six chained exact sums stay within machine range.
pub const INPUT_BOUND: i128 = 0x100;

/// The rotation axis a snapshot denotes: the signed sum of the world
/// frame's current basis vectors, in sampling order.
pub open spec fn rotation_sum(f: AxesV, k: InputSnapshot) -> Vec3V {
    let a0 = Vec3V { x: 0, y: 0, z: 0, den: 1 };
    let a1 = if k.rot_x_pos { vadd(a0, f.x) } else { a0 };
    let a2 = if k.rot_y_neg { vsub(a1, f.y) } else { a1 };
    let a3 = if k.rot_x_neg { vsub(a2, f.x) } else { a2 };
    let a4 = if k.rot_y_pos { vadd(a3, f.y) } else { a3 };
    let a5 = if k.rot_z_neg { vsub(a4, f.z) } else { a4 };
    if k.rot_z_pos { vadd(a5, f.z) } else { a5 }
}

/// The translation direction a snapshot denotes: the signed sum of the
/// world frame's current basis vectors, in sampling order.
pub open spec fn translation_sum(f: AxesV, k: InputSnapshot) -> Vec3V {
    let a0 = Vec3V { x: 0, y: 0, z: 0, den: 1 };
    let a1 = if k.tr_y_neg { vsub(a0, f.y) } else { a0 };
    let a2 = if k.tr_y_pos { vadd(a1, f.y) } else { a1 };
    let a3 = if k.tr_x_neg { vsub(a2, f.x) } else { a2 };
    let a4 = if k.tr_x_pos { vadd(a3, f.x) } else { a3 };
    let a5 = if k.tr_z_neg { vsub(a4, f.z) } else { a4 };
    if k.tr_z_pos { vadd(a5, f.z) } else { a5 }
}

/// The pivot a body turns about this tick: its own location in `Local`
/// mode, the world frame's location otherwise.
pub open spec fn pivot_spec(mode: Rotation, world: AxesV, b: BodyV) -> Vec3V {
    match mode {
        Rotation::Local => b.location,
        Rotation::Global => world.location,
        Rotation::CoordSystem => world.location,
    }
}

/// One tick's effect on one body: the display flag is aligned with the
/// orchestrator's, then the body is rotated about its pivot and
/// translated.
pub open spec fn body_ticked(
    b: BodyV,
    pivot: Vec3V,
    rot_axis: Vec3V,
    angle: AngleV,
    tr_axis: Vec3V,
    dist: RatV,
    hidden: bool,
) -> BodyV {
    let b0 = BodyV { axes_hidden: hidden, ..b };
    body_translate_spec(body_rotate_spec(b0, pivot, rot_axis, angle), tr_axis, dist)
}

/// One tick's effect on the world frame in `CoordSystem` mode: the same
/// rotation and translation as every body, about the frame's own location
/// (the shared pivot of that mode).
pub open spec fn frame_ticked(
    f: AxesV,
    rot_axis: Vec3V,
    angle: AngleV,
    tr_axis: Vec3V,
    dist: RatV,
) -> AxesV {
    axes_translate_spec(axes_rotate_spec(f, f.location, rot_axis, angle), tr_axis, dist)
}

/// The ghost value of the orchestrator.
#[verifier::ext_equal]
pub struct AppV {
    pub world_axes: AxesV,
    pub shapes: Seq<BodyV>,
    pub rotation_axis: Vec3V,
    pub translation_axis: Vec3V,
    pub delta_angle: AngleV,
    pub delta_location: RatV,
    pub rotation_type: Rotation,
    pub shape_axes_hidden: bool,
    pub active: bool,
}

/// One whole tick: every body is transformed with the mode's pivot and the
/// current parameters, and in `CoordSystem` mode the world frame receives
/// the identical transform.
pub open spec fn app_ticked(a: AppV) -> AppV {
    AppV {
        shapes: a.shapes.map_values(
            |b: BodyV|
                body_ticked(
                    b,
                    pivot_spec(a.rotation_type, a.world_axes, b),
                    a.rotation_axis,
                    a.delta_angle,
                    a.translation_axis,
                    a.delta_location,
                    a.shape_axes_hidden,
                ),
        ),
        world_axes: if a.rotation_type == Rotation::CoordSystem {
            frame_ticked(
                a.world_axes,
                a.rotation_axis,
                a.delta_angle,
                a.translation_axis,
                a.delta_location,
            )
        } else {
            a.world_axes
        },
        ..a
    }
}

/// `n` ticks in a row, with no input change in between.
pub open spec fn app_ticked_n(a: AppV, n: nat) -> AppV
    decreases n,
{
    if n == 0 {
        a
    } else {
        app_ticked(app_ticked_n(a, (n - 1) as nat))
    }
}

/// `n` frame ticks in a row with fixed parameters.
pub open spec fn frame_ticked_n(
    f: AxesV,
    rot_axis: Vec3V,
    angle: AngleV,
    tr_axis: Vec3V,
    dist: RatV,
    n: nat,
) -> AxesV
    decreases n,
{
    if n == 0 {
        f
    } else {
        frame_ticked(frame_ticked_n(f, rot_axis, angle, tr_axis, dist, (n - 1) as nat), rot_axis,
            angle, tr_axis, dist)
    }
}

/// The canonical initial state: the default world frame, the canonical
/// scene at scale fifty, no motion pending, the canonical per-tick steps
/// (an exact angle close to a twentieth of a radian, five length units),
/// `Local` mode, body frames hidden.
pub open spec fn app_initial_spec() -> AppV {
    AppV {
        world_axes: axes_default_spec(),
        shapes: platonic_solids_spec(RatV { num: 50, den: 1 }),
        rotation_axis: Vec3V { x: 0, y: 0, z: 0, den: 1 },
        translation_axis: Vec3V { x: 0, y: 0, z: 0, den: 1 },
        delta_angle: AngleV { cos: 1599, sin: 80, den: 1601 },
        delta_location: RatV { num: 5, den: 1 },
        rotation_type: Rotation::Local,
        shape_axes_hidden: true,
        active: true,
    }
}

/// The executable orchestrator.
#[derive(Clone, Debug, PartialEq)]
pub struct Application {
    pub world_axes: Axes,
    pub shapes: Vec<Shape3d>,
    pub rotation_axis: Vec3,
    pub translation_axis: Vec3,
    pub delta_angle: Angle,
    pub delta_location: Rat,
    pub rotation_type: Rotation,
    pub shape_axes_hidden: bool,
    pub active: bool,
}

impl View for Application {
    type V = AppV;

    open spec fn view(&self) -> AppV {
        AppV {
            world_axes: self.world_axes@,
            shapes: self.shapes@.map_values(|b: Shape3d| b@),
            rotation_axis: self.rotation_axis@,
            translation_axis: self.translation_axis@,
            delta_angle: self.delta_angle@,
            delta_location: self.delta_location@,
            rotation_type: self.rotation_type,
            shape_axes_hidden: self.shape_axes_hidden,
            active: self.active,
        }
    }
}

impl Application {
    /// Everything a tick needs: bounded magnitudes everywhere, and
    /// rotation/translation axes that are exactly zero or exactly unit.
    pub open spec fn update_ready(self) -> bool {
        &&& axes_bounded(self@.world_axes, crate::rotor::TICK_BOUND as int)
        &&& axes_wf(self@.world_axes)
        &&& forall|i: int|
            0 <= i < self@.shapes.len() ==> body_bounded(
                #[trigger] self@.shapes[i],
                crate::rotor::TICK_BOUND as int,
            )
        &&& vec_wf(self@.rotation_axis)
        &&& (vec_is_zero(self@.rotation_axis) || vec_is_unit(self@.rotation_axis))
        &&& vec_bounded(self@.rotation_axis, AXIS_BOUND as int)
        &&& vec_wf(self@.translation_axis)
        &&& (vec_is_zero(self@.translation_axis) || vec_is_unit(self@.translation_axis))
        &&& vec_bounded(self@.translation_axis, AXIS_BOUND as int)
        &&& angle_wf(self@.delta_angle)
        &&& angle_bounded(self@.delta_angle, ANGLE_BOUND as int)
        &&& self.delta_location.wf()
        &&& rat_bounded(self@.delta_location, STEP_BOUND as int)
    }

    /// Checks outright whether a tick can run: see `update_ready`.
    pub fn is_update_ready(&self) -> (r: bool)
        ensures
            r == self.update_ready(),
    {
        let tb: i128 = crate::rotor::TICK_BOUND;
        if !self.world_axes.is_bounded(tb) {
            return false;
        }
        let mut i: usize = 0;
        while i < self.shapes.len()
            invariant
                i <= self.shapes.len(),
                tb == crate::rotor::TICK_BOUND,
                forall|j: int|
                    0 <= j < i ==> body_bounded(#[trigger] self@.shapes[j],
                    crate::rotor::TICK_BOUND as int),
                axes_bounded(self@.world_axes, crate::rotor::TICK_BOUND as int),
            decreases self.shapes.len() - i,
        {
            proof {
                assert(self.shapes@[i as int]@ == self@.shapes[i as int]);
            }
            if !self.shapes[i].is_bounded(tb) {
                proof {
                    assert(!body_bounded(self@.shapes[i as int], crate::rotor::TICK_BOUND as int));
                }
                return false;
            }
            i = i + 1;
        }
        if !(self.rotation_axis.is_bounded(AXIS_BOUND)
            && (self.rotation_axis.is_zero() || self.rotation_axis.is_unit())) {
            return false;
        }
        if !(self.translation_axis.is_bounded(AXIS_BOUND)
            && (self.translation_axis.is_zero() || self.translation_axis.is_unit())) {
            return false;
        }
        let ang = self.delta_angle;
        if !(-ANGLE_BOUND <= ang.cos && ang.cos <= ANGLE_BOUND && -ANGLE_BOUND <= ang.sin
            && ang.sin <= ANGLE_BOUND && 1 <= ang.den && ang.den <= ANGLE_BOUND) {
            return false;
        }
        proof {
            crate::rat::lemma_mul_bound(ang@.cos, ang@.cos, ANGLE_BOUND as int, ANGLE_BOUND as int);
            crate::rat::lemma_mul_bound(ang@.sin, ang@.sin, ANGLE_BOUND as int, ANGLE_BOUND as int);
            crate::rat::lemma_mul_bound(ang@.den, ang@.den, ANGLE_BOUND as int, ANGLE_BOUND as int);
        }
        if !(ang.cos * ang.cos + ang.sin * ang.sin == ang.den * ang.den) {
            return false;
        }
        self.delta_location.is_bounded(STEP_BOUND)
    }

    /// The canonical initial state.
    pub fn new() -> (r: Application)
        ensures
            r@ == app_initial_spec(),
    {
        let r = Application {
            world_axes: Axes::default(),
            shapes: platonic_solids(&Rat::from_int(50)),
            rotation_axis: Vec3::zero(),
            translation_axis: Vec3::zero(),
            delta_angle: Angle { cos: 1599, sin: 80, den: 1601 },
            delta_location: Rat::from_int(5),
            rotation_type: Rotation::Local,
            shape_axes_hidden: true,
            active: true,
        };
        proof {
            assert(r@ =~~= app_initial_spec());
        }
        r
    }

    /// Samples one tick's directional input: the rotation and translation
    /// axes become the signed sums of the world frame's current basis
    /// vectors. The sums are exact; when several commands combine to a
    /// non-unit axis, exact arithmetic cannot renormalize it, and the tick
    /// reports itself not ready instead.
    pub fn handle_input(&mut self, keys: &InputSnapshot)
        requires
            axes_bounded(old(self)@.world_axes, INPUT_BOUND as int),
        ensures
            final(self)@ == (AppV {
                rotation_axis: rotation_sum(old(self)@.world_axes, *keys),
                translation_axis: translation_sum(old(self)@.world_axes, *keys),
                ..old(self)@
            }),
    {
        let ra = derive_rotation_axis(&self.world_axes, keys);
        let ta = derive_translation_axis(&self.world_axes, keys);
        self.rotation_axis = ra;
        self.translation_axis = ta;
        proof {
            assert(self@ =~~= (AppV {
                rotation_axis: rotation_sum(old(self)@.world_axes, *keys),
                translation_axis: translation_sum(old(self)@.world_axes, *keys),
                ..old(self)@
            }));
        }
    }

    /// One simulation tick: every body is rotated about the mode's pivot
    /// and translated, all with the same sampled parameters; in
    /// `CoordSystem` mode the world frame then receives the identical
    /// transform.
    pub fn update_state(&mut self)
        requires
            old(self).update_ready(),
        ensures
            final(self)@ == app_ticked(old(self)@),
    {
        let rot_axis = self.rotation_axis;
        let tr_axis = self.translation_axis;
        let angle = self.delta_angle;
        let dist = self.delta_location;
        let hidden = self.shape_axes_hidden;
        let mode = self.rotation_type;
        let wloc = self.world_axes.location();
        let ghost orig = self@.shapes;
        let ghost oldworld = self@.world_axes;
        let mut out: Vec<Shape3d> = Vec::new();
        while self.shapes.len() > 0
            invariant
                out@.len() + self.shapes@.len() == orig.len(),
                forall|j: int|
                    0 <= j < out@.len() ==> #[trigger] out@[j]@ == body_ticked(
                        orig[j],
                        pivot_spec(mode, oldworld, orig[j]),
                        rot_axis@,
                        angle@,
                        tr_axis@,
                        dist@,
                        hidden,
                    ),
                forall|j: int|
                    0 <= j < self.shapes@.len() ==> #[trigger] self.shapes@[j]@ == orig[out@.len()
                        + j],
                forall|j: int|
                    0 <= j < orig.len() ==> body_bounded(
                        #[trigger] orig[j],
                        crate::rotor::TICK_BOUND as int,
                    ),
                vec_bounded(wloc@, crate::rotor::TICK_BOUND as int),
                wloc@ == oldworld.location,
                self.world_axes == old(self).world_axes,
                axes_bounded(self@.world_axes, crate::rotor::TICK_BOUND as int),
                axes_wf(self@.world_axes),
                self.rotation_axis == old(self).rotation_axis,
                self.translation_axis == old(self).translation_axis,
                self.delta_angle == old(self).delta_angle,
                self.delta_location == old(self).delta_location,
                self.rotation_type == old(self).rotation_type,
                self.shape_axes_hidden == old(self).shape_axes_hidden,
                self.active == old(self).active,
                mode == old(self).rotation_type,
                hidden == old(self).shape_axes_hidden,
                rot_axis.wf(),
                vec_is_zero(rot_axis@) || vec_is_unit(rot_axis@),
                vec_bounded(rot_axis@, AXIS_BOUND as int),
                tr_axis.wf(),
                vec_is_zero(tr_axis@) || vec_is_unit(tr_axis@),
                vec_bounded(tr_axis@, AXIS_BOUND as int),
                angle.wf(),
                angle_bounded(angle@, ANGLE_BOUND as int),
                dist.wf(),
                rat_bounded(dist@, STEP_BOUND as int),
            decreases self.shapes@.len(),
        {
            let ghost idx = out@.len() as int;
            let mut s = self.shapes.remove(0);
            if hidden {
                s.hide_axes();
            } else {
                s.show_axes();
            }
            let pivot = match mode {
                Rotation::Local => s.location(),
                Rotation::Global => wloc,
                Rotation::CoordSystem => wloc,
            };
            proof {
                assert(s@ == (BodyV { axes_hidden: hidden, ..orig[idx] }));
                assert(body_bounded(s@, crate::rotor::TICK_BOUND as int));
                assert(body_bounded(s@, POS_BOUND as int));
            }
            s.rotate(&pivot, &rot_axis, &angle);
            s.translate(&tr_axis, &dist);
            out.push(s);
        }
        self.shapes = out;
        if match mode {
            Rotation::CoordSystem => true,
            _ => false,
        } {
            proof {
                assert(self.world_axes.bounded(POS_BOUND as int));
                assert(vec_bounded(wloc@, POS_BOUND as int));
            }
            self.world_axes.rotate(&wloc, &rot_axis, &angle);
            self.world_axes.translate(&tr_axis, &dist);
        }
        proof {
            assert(self@.shapes =~= app_ticked(old(self)@).shapes);
            assert(self@ =~~= app_ticked(old(self)@));
        }
    }

    /// Replaces the scene and the world frame with the canonical initial
    /// configuration, discarding every accumulated transform; the mode,
    /// steps and pending input are untouched.
    pub fn reset(&mut self)
        ensures
            final(self)@ == (AppV {
                world_axes: axes_default_spec(),
                shapes: platonic_solids_spec(RatV { num: 50, den: 1 }),
                ..old(self)@
            }),
    {
        self.shapes = platonic_solids(&Rat::from_int(50));
        self.world_axes = Axes::default();
        proof {
            assert(self@ =~~= (AppV {
                world_axes: axes_default_spec(),
                shapes: platonic_solids_spec(RatV { num: 50, den: 1 }),
                ..old(self)@
            }));
        }
    }

    /// Selects the rotation mode; selecting the active mode changes
    /// nothing.
    pub fn set_rotation_type(&mut self, mode: Rotation)
        ensures
            final(self)@ == (AppV { rotation_type: mode, ..old(self)@ }),
    {
        self.rotation_type = mode;
        proof {
            assert(self@ =~~= (AppV { rotation_type: mode, ..old(self)@ }));
        }
    }

    /// Flips whether every body's local frame rays are drawn.
    pub fn toggle_shape_axes(&mut self)
        ensures
            final(self)@ == (AppV {
                shape_axes_hidden: !old(self)@.shape_axes_hidden,
                ..old(self)@
            }),
    {
        self.shape_axes_hidden = !self.shape_axes_hidden;
        proof {
            assert(self@ =~~= (AppV {
                shape_axes_hidden: !old(self)@.shape_axes_hidden,
                ..old(self)@
            }));
        }
    }

    /// Records the quit signal; the current tick always completes, the
    /// driving loop stops at the next tick boundary.
    pub fn stop(&mut self)
        ensures
            final(self)@ == (AppV { active: false, ..old(self)@ }),
    {
        self.active = false;
        proof {
            assert(self@ =~~= (AppV { active: false, ..old(self)@ }));
        }
    }
}


/// The rotation axis the sampled input denotes: the signed sum of the
/// frame's current basis vectors.
pub fn derive_rotation_axis(f: &Axes, keys: &InputSnapshot) -> (r: Vec3)
    requires
        axes_bounded(f@, INPUT_BOUND as int),
    ensures
        r@ == rotation_sum(f@, *keys),
{
    let wx = f.x;
    let wy = f.y;
    let wz = f.z;
    let mut ra = Vec3::zero();
    if keys.rot_x_pos {
        proof {
            lemma_vaddsub_bound(ra@, wx@, 0x1, 0x100);
        }
        ra = ra.add(&wx);
    }
    proof {
        assert(vec_bounded(ra@, 0x200));
    }
    if keys.rot_y_neg {
        proof {
            lemma_vaddsub_bound(ra@, wy@, 0x200, 0x100);
        }
        ra = ra.sub(&wy);
    }
    proof {
        assert(vec_bounded(ra@, 0x40000));
    }
    if keys.rot_x_neg {
        proof {
            lemma_vaddsub_bound(ra@, wx@, 0x40000, 0x100);
        }
        ra = ra.sub(&wx);
    }
    proof {
        assert(vec_bounded(ra@, 0x8000000));
    }
    if keys.rot_y_pos {
        proof {
            lemma_vaddsub_bound(ra@, wy@, 0x8000000, 0x100);
        }
        ra = ra.add(&wy);
    }
    proof {
        assert(vec_bounded(ra@, 0x1000000000));
    }
    if keys.rot_z_neg {
        proof {
            lemma_vaddsub_bound(ra@, wz@, 0x1000000000, 0x100);
        }
        ra = ra.sub(&wz);
    }
    proof {
        assert(vec_bounded(ra@, 0x200000000000));
    }
    if keys.rot_z_pos {
        proof {
            lemma_vaddsub_bound(ra@, wz@, 0x200000000000, 0x100);
        }
        ra = ra.add(&wz);
    }
    proof {
        assert(vec_bounded(ra@, 0x40000000000000));
    }
    ra
}

/// The translation direction the sampled input denotes: the signed sum of
/// the frame's current basis vectors.
pub fn derive_translation_axis(f: &Axes, keys: &InputSnapshot) -> (r: Vec3)
    requires
        axes_bounded(f@, INPUT_BOUND as int),
    ensures
        r@ == translation_sum(f@, *keys),
{
    let wx = f.x;
    let wy = f.y;
    let wz = f.z;
    let mut ta = Vec3::zero();
    if keys.tr_y_neg {
        proof {
            lemma_vaddsub_bound(ta@, wy@, 0x1, 0x100);
        }
        ta = ta.sub(&wy);
    }
    proof {
        assert(vec_bounded(ta@, 0x200));
    }
    if keys.tr_y_pos {
        proof {
            lemma_vaddsub_bound(ta@, wy@, 0x200, 0x100);
        }
        ta = ta.add(&wy);
    }
    proof {
        assert(vec_bounded(ta@, 0x40000));
    }
    if keys.tr_x_neg {
        proof {
            lemma_vaddsub_bound(ta@, wx@, 0x40000, 0x100);
        }
        ta = ta.sub(&wx);
    }
    proof {
        assert(vec_bounded(ta@, 0x8000000));
    }
    if keys.tr_x_pos {
        proof {
            lemma_vaddsub_bound(ta@, wx@, 0x8000000, 0x100);
        }
        ta = ta.add(&wx);
    }
    proof {
        assert(vec_bounded(ta@, 0x1000000000));
    }
    if keys.tr_z_neg {
        proof {
            lemma_vaddsub_bound(ta@, wz@, 0x1000000000, 0x100);
        }
        ta = ta.sub(&wz);
    }
    proof {
        assert(vec_bounded(ta@, 0x200000000000));
    }
    if keys.tr_z_pos {
        proof {
            lemma_vaddsub_bound(ta@, wz@, 0x200000000000, 0x100);
        }
        ta = ta.add(&wz);
    }
    proof {
        assert(vec_bounded(ta@, 0x40000000000000));
    }
    ta
}

/// **CoordSystem tracking.** In `CoordSystem` mode every body is handed
/// exactly the pivot, axis, angle, direction and distance that the world
/// frame itself receives, and after `n` ticks the frame's accumulated
/// orientation and location are exactly the `n`-fold composition of the
/// per-tick transform.
pub proof fn lemma_coord_system_tracking(a: AppV, n: nat)
    requires
        a.rotation_type == Rotation::CoordSystem,
    ensures
        app_ticked_n(a, n).world_axes == frame_ticked_n(
            a.world_axes,
            a.rotation_axis,
            a.delta_angle,
            a.translation_axis,
            a.delta_location,
            n,
        ),
        forall|i: int|
            0 <= i < a.shapes.len() ==> app_ticked(a).shapes[i] == body_ticked(
                a.shapes[i],
                a.world_axes.location,
                a.rotation_axis,
                a.delta_angle,
                a.translation_axis,
                a.delta_location,
                a.shape_axes_hidden,
            ),
    decreases n,
{
    if n > 0 {
        lemma_coord_system_tracking(a, (n - 1) as nat);
        lemma_app_tick_fixed(a, (n - 1) as nat);
    }
}

/// Ticking never changes the mode, the pending input or the step sizes.
proof fn lemma_app_tick_fixed(a: AppV, n: nat)
    ensures
        app_ticked_n(a, n).rotation_type == a.rotation_type,
        app_ticked_n(a, n).rotation_axis == a.rotation_axis,
        app_ticked_n(a, n).translation_axis == a.translation_axis,
        app_ticked_n(a, n).delta_angle == a.delta_angle,
        app_ticked_n(a, n).delta_location == a.delta_location,
        app_ticked_n(a, n).shape_axes_hidden == a.shape_axes_hidden,
    decreases n,
{
    if n > 0 {
        lemma_app_tick_fixed(a, (n - 1) as nat);
    }
}


/// A signed-sum step stays bounded: adding or subtracting a vector bounded
/// by `bb` to one bounded by `ab` gives one bounded by `2 * (ab * bb)`.
proof fn lemma_vaddsub_bound(a: Vec3V, b: Vec3V, ab: int, bb: int)
    requires
        vec_bounded(a, ab),
        vec_bounded(b, bb),
        1 <= ab,
        1 <= bb,
    ensures
        vec_bounded(vadd(a, b), 2 * (ab * bb)),
        vec_bounded(vsub(a, b), 2 * (ab * bb)),
{
    crate::rat::lemma_mul_bound(a.x, b.den, ab, bb);
    crate::rat::lemma_mul_bound(a.y, b.den, ab, bb);
    crate::rat::lemma_mul_bound(a.z, b.den, ab, bb);
    crate::rat::lemma_mul_bound(b.x, a.den, bb, ab);
    crate::rat::lemma_mul_bound(b.y, a.den, bb, ab);
    crate::rat::lemma_mul_bound(b.z, a.den, bb, ab);
    crate::rat::lemma_mul_bound(a.den, b.den, ab, bb);
    assert(bb * ab == ab * bb) by (nonlinear_arith);
    assert(a.den * b.den >= 1) by (nonlinear_arith)
        requires
            a.den >= 1,
            b.den >= 1,
    ;
}

} // verus!
