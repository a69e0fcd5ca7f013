//! The orthographic projector: a pure mapping from a 3D point and the
//! current viewport size to a 2D screen point. The depth component is
//! dropped and the point is offset by half the viewport, exactly:
//! `screen = (x + width/2, y + height/2)`.

use vstd::prelude::*;
use crate::rat::{Rat, RatV, rat_eq, rat_add, lemma_mul_bound};
use crate::vec3::{Vec3, Vec3V, vec_wf, vec_bounded};
use crate::shape3d::{Shape3d, edges_valid};
use crate::axes::{Axes, STEP_BOUND};
use crate::rotor::POS_BOUND;

verus! {

/// Bound on frame magnitudes accepted by the ray projector.
pub const RAY_FRAME_BOUND: i128 = 0x4000_0000;

/// Bound on the ray display scale accepted by the ray projector.
pub const RAY_SCALE_BOUND: i128 = 0x400;

/// Bound on point magnitudes accepted by the projector.
pub const PROJ_BOUND: i128 = 0x1_0000_0000_0000_0000_0000;

/// The ghost value of a screen point: `(x, y) / den`.
pub struct Point2V {
    pub x: int,
    pub y: int,
    pub den: int,
}

/// An executable screen point, still exact: rounding to pixels is the
/// caller's concern.
#[derive(Clone, Copy, Debug, PartialEq, Eq, Structural)]
pub struct Point2 {
    pub x: i128,
    pub y: i128,
    pub den: i128,
}

impl View for Point2 {
    type V = Point2V;

    open spec fn view(&self) -> Point2V {
        Point2V { x: self.x as int, y: self.y as int, den: self.den as int }
    }
}

/// What the projector computes: numerators over the denominator `2 * den`,
/// so that the half-viewport offset stays exact for odd sizes.
pub open spec fn project_spec(p: Vec3V, width: u32, height: u32) -> Point2V {
    Point2V {
        x: 2 * p.x + (width as int) * p.den,
        y: 2 * p.y + (height as int) * p.den,
        den: 2 * p.den,
    }
}

/// Projects a point orthographically: the depth component is ignored and
/// the result is exactly `(x + width/2, y + height/2)`. A pure function of
/// its arguments; the viewport size is handed in per call, so a resize
/// simply reaches the next call.
pub fn project_orthographic(p: &Vec3, width: u32, height: u32) -> (r: Point2)
    requires
        p.wf(),
        p.bounded(PROJ_BOUND as int),
    ensures
        r@ == project_spec(p@, width, height),
        r@.den >= 1,
{
    proof {
        lemma_mul_bound(width as int, p@.den, 0x1_0000_0000, PROJ_BOUND as int);
        lemma_mul_bound(height as int, p@.den, 0x1_0000_0000, PROJ_BOUND as int);
    }
    Point2 {
        x: 2 * p.x + (width as i128) * p.den,
        y: 2 * p.y + (height as i128) * p.den,
        den: 2 * p.den,
    }
}

/// **Projection law.** The projected point equals, as exact rationals,
/// `(x + width/2, y + height/2)`: the depth component plays no part.
pub proof fn lemma_projection(p: Vec3V, width: u32, height: u32)
    requires
        vec_wf(p),
    ensures
        rat_eq(
            RatV { num: project_spec(p, width, height).x, den: project_spec(p, width, height).den },
            rat_add(RatV { num: p.x, den: p.den }, RatV { num: width as int, den: 2 }),
        ),
        rat_eq(
            RatV { num: project_spec(p, width, height).y, den: project_spec(p, width, height).den },
            rat_add(RatV { num: p.y, den: p.den }, RatV { num: height as int, den: 2 }),
        ),
        forall|q: Vec3V|
            q.x == p.x && q.y == p.y && q.den == p.den ==> #[trigger] project_spec(
                q,
                width,
                height,
            ) == project_spec(p, width, height),
{
    let s = project_spec(p, width, height);
    let a = rat_add(RatV { num: p.x, den: p.den }, RatV { num: width as int, den: 2 });
    assert(s.x * a.den == a.num * s.den) by (nonlinear_arith)
        requires
            s.x == 2 * p.x + (width as int) * p.den,
            s.den == 2 * p.den,
            a.num == p.x * 2 + (width as int) * p.den,
            a.den == p.den * 2,
    ;
    let b = rat_add(RatV { num: p.y, den: p.den }, RatV { num: height as int, den: 2 });
    assert(s.y * b.den == b.num * s.den) by (nonlinear_arith)
        requires
            s.y == 2 * p.y + (height as int) * p.den,
            s.den == 2 * p.den,
            b.num == p.y * 2 + (height as int) * p.den,
            b.den == p.den * 2,
    ;
}

/// Projects every edge of a body to a pair of screen points, after
/// checking outright that every edge indexes two distinct in-range
/// vertices; malformed geometry is rejected, not partially drawn.
pub fn project_body_edges(shape: &Shape3d, width: u32, height: u32) -> (r: Option<
    Vec<(Point2, Point2)>,
>)
    requires
        shape.wf_positions(),
        shape.bounded(PROJ_BOUND as int),
    ensures
        r is Some <==> edges_valid(shape@.edges, shape@.vertices.len() as int),
        r is Some ==> r->0@.len() == shape@.edges.len(),
        r is Some ==> forall|k: int|
            0 <= k < shape@.edges.len() ==> (#[trigger] r->0@[k]).0@ == project_spec(
                shape@.vertices[shape@.edges[k].a as int],
                width,
                height,
            ) && r->0@[k].1@ == project_spec(
                shape@.vertices[shape@.edges[k].b as int],
                width,
                height,
            ),
{
    let mut out: Vec<(Point2, Point2)> = Vec::new();
    let mut k: usize = 0;
    while k < shape.edges.len()
        invariant
            k <= shape.edges.len(),
            out@.len() == k,
            shape.wf_positions(),
            shape.bounded(PROJ_BOUND as int),
            forall|j: int|
                0 <= j < k ==> (shape@.edges[j].a as int) < shape@.vertices.len()
                    && (shape@.edges[j].b as int) < shape@.vertices.len()
                    && shape@.edges[j].a != shape@.edges[j].b,
            forall|j: int|
                0 <= j < k ==> (#[trigger] out@[j]).0@ == project_spec(
                    shape@.vertices[shape@.edges[j].a as int],
                    width,
                    height,
                ) && out@[j].1@ == project_spec(
                    shape@.vertices[shape@.edges[j].b as int],
                    width,
                    height,
                ),
        decreases shape.edges.len() - k,
    {
        let e = shape.edges[k];
        if e.a >= shape.vertices.len() || e.b >= shape.vertices.len() || e.a == e.b {
            proof {
                assert(!((shape@.edges[k as int].a as int) < shape@.vertices.len()
                    && (shape@.edges[k as int].b as int) < shape@.vertices.len()
                    && shape@.edges[k as int].a != shape@.edges[k as int].b));
            }
            return None;
        }
        proof {
            assert(shape.vertices@[e.a as int]@ == shape@.vertices[e.a as int]);
            assert(shape.vertices@[e.b as int]@ == shape@.vertices[e.b as int]);
        }
        let pa = project_orthographic(&shape.vertices[e.a], width, height);
        let pb = project_orthographic(&shape.vertices[e.b], width, height);
        out.push((pa, pb));
        k = k + 1;
    }
    Some(out)
}

/// Projects a frame's three basis rays: each ray runs from the frame's
/// location to `location + basis * ray_scale`, projected orthographically.
/// Returned in axis order: x, y, z.
pub fn project_axes_rays(f: &Axes, ray_scale: &Rat, width: u32, height: u32) -> (r: Vec<
    (Point2, Point2),
>)
    requires
        f.wf(),
        f.bounded(RAY_FRAME_BOUND as int),
        ray_scale.wf(),
        crate::rat::rat_bounded(ray_scale@, RAY_SCALE_BOUND as int),
    ensures
        r@.len() == 3,
        r@[0].0@ == project_spec(f@.location, width, height),
        r@[1].0@ == project_spec(f@.location, width, height),
        r@[2].0@ == project_spec(f@.location, width, height),
        r@[0].1@ == project_spec(
            crate::vec3::vadd(f@.location, crate::vec3::vscale(f@.x, ray_scale@)),
            width,
            height,
        ),
        r@[1].1@ == project_spec(
            crate::vec3::vadd(f@.location, crate::vec3::vscale(f@.y, ray_scale@)),
            width,
            height,
        ),
        r@[2].1@ == project_spec(
            crate::vec3::vadd(f@.location, crate::vec3::vscale(f@.z, ray_scale@)),
            width,
            height,
        ),
{
    proof {
        let pb = RAY_FRAME_BOUND as int;
        let sb = RAY_SCALE_BOUND as int;
        lemma_mul_bound(f@.x.x, ray_scale@.num, pb, sb);
        lemma_mul_bound(f@.x.y, ray_scale@.num, pb, sb);
        lemma_mul_bound(f@.x.z, ray_scale@.num, pb, sb);
        lemma_mul_bound(f@.x.den, ray_scale@.den, pb, sb);
        lemma_mul_bound(f@.y.x, ray_scale@.num, pb, sb);
        lemma_mul_bound(f@.y.y, ray_scale@.num, pb, sb);
        lemma_mul_bound(f@.y.z, ray_scale@.num, pb, sb);
        lemma_mul_bound(f@.y.den, ray_scale@.den, pb, sb);
        lemma_mul_bound(f@.z.x, ray_scale@.num, pb, sb);
        lemma_mul_bound(f@.z.y, ray_scale@.num, pb, sb);
        lemma_mul_bound(f@.z.z, ray_scale@.num, pb, sb);
        lemma_mul_bound(f@.z.den, ray_scale@.den, pb, sb);
    }
    let start = project_orthographic(&f.location, width, height);
    let sx = f.x.scale(ray_scale);
    let sy = f.y.scale(ray_scale);
    let sz = f.z.scale(ray_scale);
    proof {
        let pb: int = 0x4000_0000;
        let db: int = 0x4000_0000_0000;
        lemma_scaled_add_bound(f@.location, sx@, pb, db);
        lemma_scaled_add_bound(f@.location, sy@, pb, db);
        lemma_scaled_add_bound(f@.location, sz@, pb, db);
    }
    let ex = f.location.add(&sx);
    let ey = f.location.add(&sy);
    let ez = f.location.add(&sz);
    let px = project_orthographic(&ex, width, height);
    let py = project_orthographic(&ey, width, height);
    let pz = project_orthographic(&ez, width, height);
    let mut out: Vec<(Point2, Point2)> = Vec::new();
    out.push((start, px));
    out.push((start, py));
    out.push((start, pz));
    out
}


/// The sum of a bounded point and a bounded displacement stays within the
/// projector's input bound.
proof fn lemma_scaled_add_bound(l: Vec3V, d: Vec3V, pb: int, db: int)
    requires
        vec_bounded(l, pb),
        vec_bounded(d, db),
        1 <= pb,
        1 <= db,
        pb * db * 2 <= PROJ_BOUND as int,
    ensures
        vec_bounded(crate::vec3::vadd(l, d), PROJ_BOUND as int),
{
    lemma_mul_bound(l.x, d.den, pb, db);
    lemma_mul_bound(l.y, d.den, pb, db);
    lemma_mul_bound(l.z, d.den, pb, db);
    lemma_mul_bound(d.x, l.den, db, pb);
    lemma_mul_bound(d.y, l.den, db, pb);
    lemma_mul_bound(d.z, l.den, db, pb);
    lemma_mul_bound(l.den, d.den, pb, db);
    assert(db * pb == pb * db) by (nonlinear_arith);
    assert(l.den * d.den >= 1) by (nonlinear_arith)
        requires
            l.den >= 1,
            d.den >= 1,
    ;
}

} // verus!
