//! Exercises the exact transform engine end to end: vectors, angles,
//! rotors, frames, bodies, the orchestrator's tick and commands, and the
//! projector.

use wireframe::application::{
    derive_rotation_axis, derive_translation_axis, Application, InputSnapshot, Rotation,
};
use wireframe::axes::Axes;
use wireframe::projector::{project_axes_rays, project_body_edges, project_orthographic};
use wireframe::rat::Rat;
use wireframe::rotor::{Angle, Rotor};
use wireframe::shape3d::{cube, platonic_solids, Edge, Shape3d};
use wireframe::vec3::Vec3;

fn quarter_turn() -> Angle {
    Angle::new(0, 1, 1).expect("a quarter turn lies on the unit circle")
}

fn unit_z() -> Vec3 {
    Vec3::from_ints(0, 0, 1)
}

#[test]
fn angle_new_accepts_pythagorean_pairs() {
    assert!(Angle::new(4, 3, 5).is_some());
    assert!(Angle::new(0, 1, 1).is_some());
    assert!(Angle::new(1599, 80, 1601).is_some());
    assert!(Angle::new(1, 1, 2).is_none());
    assert!(Angle::new(1, 0, 0).is_none());
}

#[test]
fn angle_neg_flips_sine_only() {
    let a = Angle::new(4, 3, 5).unwrap();
    let n = a.neg();
    assert_eq!((n.cos, n.sin, n.den), (4, -3, 5));
}

#[test]
fn rotor_new_validates_orthogonality() {
    assert!(Rotor::new(0, -1, 0, 1, 0, 0, 0, 0, 1, 1).is_some());
    assert!(Rotor::new(1, 1, 0, 0, 1, 0, 0, 0, 1, 1).is_none());
    assert!(Rotor::new(1, 0, 0, 0, 1, 0, 0, 0, 1, 0).is_none());
}

#[test]
fn rotor_quarter_turn_about_z() {
    let rot = Rotor::from_axis_angle(&unit_z(), &quarter_turn()).unwrap();
    let p = Vec3::from_ints(200, 0, 100);
    let origin = Vec3::zero();
    let turned = rot.rotate_about(&origin, &p);
    assert!(turned.same_point(&Vec3::from_ints(0, 200, 100)));
}

#[test]
fn rotor_three_four_five_turn() {
    // cos = 4/5, sin = 3/5 about +Z: (10, 0, 0) lands on (8, 6, 0).
    let angle = Angle::new(4, 3, 5).unwrap();
    let rot = Rotor::from_axis_angle(&unit_z(), &angle).unwrap();
    let turned = rot.rotate_about(&Vec3::zero(), &Vec3::from_ints(10, 0, 0));
    assert!(turned.same_point(&Vec3::from_ints(8, 6, 0)));
}

#[test]
fn rotation_with_zero_axis_is_identity() {
    let mut body = cube(&Rat::from_int(50), &Vec3::from_ints(0, 0, 100));
    let before = body.clone();
    body.rotate(&Vec3::zero(), &Vec3::zero(), &quarter_turn());
    assert_eq!(body, before);
}

#[test]
fn translation_with_zero_direction_is_identity() {
    let mut body = cube(&Rat::from_int(50), &Vec3::from_ints(0, 0, 100));
    let before = body.clone();
    body.translate(&Vec3::zero(), &Rat::from_int(12345));
    assert_eq!(body, before);
}

#[test]
fn rotation_then_opposite_rotation_restores_positions() {
    let angle = Angle::new(4, 3, 5).unwrap();
    let pivot = Vec3::from_ints(7, -3, 2);
    let mut body = cube(&Rat::from_int(5), &Vec3::from_ints(10, 20, 30));
    let before = body.clone();
    body.rotate(&pivot, &unit_z(), &angle);
    body.rotate(&pivot, &unit_z(), &angle.neg());
    for (v, w) in body.vertices().iter().zip(before.vertices().iter()) {
        assert!(v.same_point(w));
    }
    assert!(body.location().same_point(&before.location()));
}

#[test]
fn rigid_motion_preserves_squared_distances() {
    let mut body = cube(&Rat::from_int(5), &Vec3::from_ints(10, 0, 0));
    let d01_before = body.vertices()[0].dist_sq(&body.vertices()[1]);
    let dl_before = body.vertices()[2].dist_sq(&body.location());
    let angle = Angle::new(4, 3, 5).unwrap();
    body.rotate(&Vec3::from_ints(1, 2, 3), &unit_z(), &angle);
    body.translate(&Vec3::from_ints(0, 1, 0), &Rat::from_int(9));
    let d01_after = body.vertices()[0].dist_sq(&body.vertices()[1]);
    let dl_after = body.vertices()[2].dist_sq(&body.location());
    assert!(d01_before.eq_rat(&d01_after));
    assert!(dl_before.eq_rat(&dl_after));
}

#[test]
fn local_mode_keeps_each_body_location_fixed() {
    let mut app = Application::new();
    app.rotation_type = Rotation::Local;
    app.rotation_axis = unit_z();
    app.delta_angle = quarter_turn();
    let locations_before: Vec<Vec3> = app.shapes.iter().map(|s| s.location()).collect();
    assert!(app.is_update_ready());
    app.update_state();
    for (s, before) in app.shapes.iter().zip(locations_before.iter()) {
        assert!(s.location().same_point(before));
    }
}

#[test]
fn global_mode_quarter_turn_moves_body_around_origin() {
    let mut app = Application::new();
    app.rotation_type = Rotation::Global;
    app.rotation_axis = unit_z();
    app.delta_angle = quarter_turn();
    let vertices = vec![Vec3::from_ints(200, 0, 100)];
    let body = Shape3d::new(vertices, Vec::new(), Vec3::from_ints(200, 0, 100)).unwrap();
    app.shapes = vec![body];
    assert!(app.is_update_ready());
    app.update_state();
    assert!(app.shapes[0].location().same_point(&Vec3::from_ints(0, 200, 100)));
    assert!(app.shapes[0].vertices()[0].same_point(&Vec3::from_ints(0, 200, 100)));
    // The world frame held still.
    assert_eq!(app.world_axes, Axes::default());
}

#[test]
fn coord_system_mode_co_rotates_world_frame() {
    let mut app = Application::new();
    app.rotation_type = Rotation::CoordSystem;
    app.rotation_axis = unit_z();
    app.delta_angle = quarter_turn();
    app.shapes = Vec::new();
    assert!(app.is_update_ready());
    app.update_state();
    // The frame turned about its own location: the basis moved, the
    // location stayed at the origin.
    assert!(app.world_axes.x().same_point(&Vec3::from_ints(0, 1, 0)));
    assert!(app.world_axes.y().same_point(&Vec3::from_ints(-1, 0, 0)));
    assert!(app.world_axes.z().same_point(&Vec3::from_ints(0, 0, 1)));
    assert!(app.world_axes.location().same_point(&Vec3::zero()));
}

#[test]
fn coord_system_mode_changes_meaning_of_later_input() {
    let mut app = Application::new();
    app.rotation_type = Rotation::CoordSystem;
    app.rotation_axis = unit_z();
    app.delta_angle = quarter_turn();
    app.shapes = Vec::new();
    app.update_state();
    // After the quarter turn, "rotate about +x" now means the world +y.
    let mut keys = InputSnapshot::none();
    keys.rot_x_pos = true;
    let axis = derive_rotation_axis(&app.world_axes, &keys);
    assert!(axis.same_point(&Vec3::from_ints(0, 1, 0)));
}

#[test]
fn global_and_coord_system_share_the_pivot() {
    // The two modes move the bodies identically; only the frame differs.
    let vertices = vec![Vec3::from_ints(200, 0, 100)];
    let body = Shape3d::new(vertices, Vec::new(), Vec3::from_ints(200, 0, 100)).unwrap();
    let mut global_app = Application::new();
    global_app.rotation_type = Rotation::Global;
    global_app.rotation_axis = unit_z();
    global_app.delta_angle = quarter_turn();
    global_app.shapes = vec![body.clone()];
    let mut coord_app = Application::new();
    coord_app.rotation_type = Rotation::CoordSystem;
    coord_app.rotation_axis = unit_z();
    coord_app.delta_angle = quarter_turn();
    coord_app.shapes = vec![body];
    global_app.update_state();
    coord_app.update_state();
    assert_eq!(global_app.shapes, coord_app.shapes);
    assert_eq!(global_app.world_axes, Axes::default());
    assert_ne!(coord_app.world_axes, Axes::default());
}

#[test]
fn translate_moves_by_distance_along_unit_direction() {
    let mut body = cube(&Rat::from_int(50), &Vec3::from_ints(0, 0, 100));
    body.translate(&Vec3::from_ints(0, 1, 0), &Rat::from_int(5));
    assert!(body.location().same_point(&Vec3::from_ints(0, 5, 100)));
}

#[test]
fn shape_new_rejects_out_of_range_edge() {
    let vertices = vec![Vec3::from_ints(0, 0, 0), Vec3::from_ints(1, 0, 0)];
    let edges = vec![Edge { a: 0, b: 2 }];
    assert!(Shape3d::new(vertices, edges, Vec3::zero()).is_none());
}

#[test]
fn shape_new_rejects_self_loop_edge() {
    let vertices = vec![Vec3::from_ints(0, 0, 0), Vec3::from_ints(1, 0, 0)];
    let edges = vec![Edge { a: 1, b: 1 }];
    assert!(Shape3d::new(vertices, edges, Vec3::zero()).is_none());
}

#[test]
fn shape_new_accepts_valid_geometry() {
    let vertices = vec![Vec3::from_ints(0, 0, 0), Vec3::from_ints(1, 0, 0)];
    let edges = vec![Edge { a: 0, b: 1 }];
    let body = Shape3d::new(vertices, edges, Vec3::zero()).unwrap();
    assert_eq!(body.vertices().len(), 2);
    assert!(body.axes_hidden);
}

#[test]
fn vec3_new_rejects_bad_denominator() {
    assert!(Vec3::new(1, 2, 3, 0).is_none());
    assert!(Vec3::new(1, 2, 3, -4).is_none());
    assert!(Vec3::new(1, 2, 3, 4).is_some());
}

#[test]
fn canonical_scene_has_five_platonic_solids() {
    let shapes = platonic_solids(&Rat::from_int(50));
    assert_eq!(shapes.len(), 5);
    let sizes: Vec<(usize, usize)> = shapes
        .iter()
        .map(|s| (s.vertices().len(), s.edges.len()))
        .collect();
    assert_eq!(sizes, vec![(8, 12), (4, 6), (6, 12), (20, 30), (12, 30)]);
}

#[test]
fn canonical_scene_placements() {
    let shapes = platonic_solids(&Rat::from_int(50));
    let expected = [
        Vec3::from_ints(0, 0, 100),
        Vec3::from_ints(200, 0, 100),
        Vec3::from_ints(-200, 0, 100),
        Vec3::from_ints(0, 200, 100),
        Vec3::from_ints(0, -200, 100),
    ];
    for (s, e) in shapes.iter().zip(expected.iter()) {
        assert!(s.location().same_point(e));
    }
}

#[test]
fn reset_restores_the_canonical_configuration() {
    let mut app = Application::new();
    let fresh = Application::new();
    app.rotation_axis = unit_z();
    app.delta_angle = quarter_turn();
    app.rotation_type = Rotation::CoordSystem;
    app.update_state();
    assert_ne!(app.shapes, fresh.shapes);
    app.reset();
    assert_eq!(app.shapes, fresh.shapes);
    assert_eq!(app.world_axes, fresh.world_axes);
    // Mode and steps survive a reset; only scene and frame are replaced.
    assert_eq!(app.rotation_type, Rotation::CoordSystem);
}

#[test]
fn mode_selection_and_toggles() {
    let mut app = Application::new();
    assert_eq!(app.rotation_type, Rotation::Local);
    app.set_rotation_type(Rotation::Global);
    assert_eq!(app.rotation_type, Rotation::Global);
    app.set_rotation_type(Rotation::Global);
    assert_eq!(app.rotation_type, Rotation::Global);
    assert!(app.shape_axes_hidden);
    app.toggle_shape_axes();
    assert!(!app.shape_axes_hidden);
    app.toggle_shape_axes();
    assert!(app.shape_axes_hidden);
    assert!(app.active);
    app.stop();
    assert!(!app.active);
}

#[test]
fn tick_aligns_body_frame_visibility_with_the_orchestrator() {
    let mut app = Application::new();
    app.toggle_shape_axes();
    app.update_state();
    for s in app.shapes.iter() {
        assert!(!s.axes_hidden);
    }
}

#[test]
fn input_derivation_sums_signed_basis_vectors() {
    let frame = Axes::default();
    let mut keys = InputSnapshot::none();
    keys.rot_x_pos = true;
    keys.rot_z_neg = true;
    let axis = derive_rotation_axis(&frame, &keys);
    assert!(axis.same_point(&Vec3::from_ints(1, 0, -1)));
    let mut tkeys = InputSnapshot::none();
    tkeys.tr_y_pos = true;
    let dir = derive_translation_axis(&frame, &tkeys);
    assert!(dir.same_point(&Vec3::from_ints(0, 1, 0)));
    let none = derive_rotation_axis(&frame, &InputSnapshot::none());
    assert!(none.is_zero());
}

#[test]
fn handle_input_snapshots_both_axes() {
    let mut app = Application::new();
    let mut keys = InputSnapshot::none();
    keys.rot_y_pos = true;
    keys.tr_x_neg = true;
    app.handle_input(&keys);
    assert!(app.rotation_axis.same_point(&Vec3::from_ints(0, 1, 0)));
    assert!(app.translation_axis.same_point(&Vec3::from_ints(-1, 0, 0)));
}

#[test]
fn projection_offsets_by_half_viewport_and_drops_depth() {
    let p = project_orthographic(&Vec3::from_ints(3, 4, 5), 800, 600);
    // (3 + 400, 4 + 300) over the exact denominator 2.
    assert_eq!((p.x, p.y, p.den), (806, 608, 2));
    let q = project_orthographic(&Vec3::from_ints(3, 4, -999), 800, 600);
    assert_eq!((q.x, q.y), (p.x, p.y));
}

#[test]
fn projection_keeps_odd_viewports_exact() {
    let p = project_orthographic(&Vec3::from_ints(0, 0, 0), 801, 601);
    assert_eq!((p.x, p.y, p.den), (801, 601, 2));
}

#[test]
fn project_body_edges_maps_every_edge() {
    let body = cube(&Rat::from_int(50), &Vec3::from_ints(0, 0, 100));
    let segments = project_body_edges(&body, 800, 800).unwrap();
    assert_eq!(segments.len(), 12);
    // Edge 0 joins vertices 0 and 1: (50,50,150) and (50,50,50).
    let (a, b) = segments[0];
    assert_eq!((a.x, a.y, a.den), (2 * 50 + 800, 2 * 50 + 800, 2));
    assert_eq!((b.x, b.y, b.den), (2 * 50 + 800, 2 * 50 + 800, 2));
}

#[test]
fn project_body_edges_rejects_malformed_geometry() {
    let mut body = cube(&Rat::from_int(50), &Vec3::from_ints(0, 0, 100));
    body.edges.push(Edge { a: 0, b: 99 });
    assert!(project_body_edges(&body, 800, 800).is_none());
}

#[test]
fn world_frame_rays_project_from_the_origin() {
    let rays = project_axes_rays(&Axes::default(), &Rat::from_int(400), 800, 800);
    assert_eq!(rays.len(), 3);
    let (start, x_end) = rays[0];
    assert_eq!((start.x, start.y, start.den), (800, 800, 2));
    // The x ray ends at (400, 0, 0): screen (800, 400).
    assert_eq!((x_end.x, x_end.y, x_end.den), (1600, 800, 2));
    let (_, y_end) = rays[1];
    assert_eq!((y_end.x, y_end.y, y_end.den), (800, 2 * 400 + 800, 2));
}

#[test]
fn bounded_checks_guard_the_tick() {
    let mut app = Application::new();
    assert!(app.is_update_ready());
    // A non-unit, non-zero rotation axis is not tickable.
    app.rotation_axis = Vec3::from_ints(1, 1, 0);
    assert!(!app.is_update_ready());
    app.rotation_axis = Vec3::zero();
    assert!(app.is_update_ready());
}

#[test]
fn isqrt_and_perfect_squares() {
    assert_eq!(wireframe::vec3::isqrt(0), 0);
    assert_eq!(wireframe::vec3::isqrt(15), 3);
    assert_eq!(wireframe::vec3::isqrt(16), 4);
    assert_eq!(wireframe::vec3::isqrt(1_000_000_000_000), 1_000_000);
    assert!(wireframe::vec3::check_perfect_square(49));
    assert!(!wireframe::vec3::check_perfect_square(50));
}

#[test]
fn normalize_if_possible_scales_rational_lengths() {
    let mut frame = Axes::new(
        Vec3::from_ints(3, 4, 0),
        Vec3::from_ints(0, 0, 5),
        Vec3::from_ints(2, 3, 6),
        Vec3::from_ints(1, 2, 3),
    );
    frame.normalize_if_possible();
    assert_eq!((frame.x.x, frame.x.y, frame.x.z, frame.x.den), (3, 4, 0, 5));
    assert_eq!(frame.y.den, 5);
    assert_eq!(frame.z.den, 7);
    assert!(frame.x.is_unit() && frame.y.is_unit() && frame.z.is_unit());
    assert_eq!(frame.location, Vec3::from_ints(1, 2, 3));
}

#[test]
fn normalize_if_possible_leaves_irrational_lengths_alone() {
    let before = Axes::new(
        Vec3::from_ints(1, 1, 0),
        Vec3::from_ints(0, 1, 0),
        Vec3::from_ints(0, 0, 1),
        Vec3::zero(),
    );
    let mut frame = before;
    frame.normalize_if_possible();
    assert_eq!(frame, before);
}

#[test]
fn normalize_if_possible_never_touches_zero_vectors() {
    let before = Axes::new(
        Vec3::zero(),
        Vec3::from_ints(0, 3, 4),
        Vec3::from_ints(0, 0, 1),
        Vec3::zero(),
    );
    let mut frame = before;
    frame.normalize_if_possible();
    assert_eq!(frame, before);
}

#[test]
fn two_ticks_compose_to_the_exact_double_angle() {
    // cos = 4/5, sin = 3/5; doubled: cos = 7/25, sin = 24/25. A body at
    // (200, 0, 100) turned twice about the world +Z lands exactly on
    // (200 * 7/25, 200 * 24/25, 100) = (56, 192, 100).
    let mut app = Application::new();
    app.rotation_type = Rotation::Global;
    app.rotation_axis = unit_z();
    app.delta_angle = Angle::new(4, 3, 5).unwrap();
    let vertices = vec![Vec3::from_ints(200, 0, 100)];
    let body = Shape3d::new(vertices, Vec::new(), Vec3::from_ints(200, 0, 100)).unwrap();
    app.shapes = vec![body];
    assert!(app.is_update_ready());
    app.update_state();
    assert!(app.is_update_ready());
    app.update_state();
    assert!(app.shapes[0].location().same_point(&Vec3::from_ints(56, 192, 100)));
}

#[test]
fn coord_system_two_ticks_track_the_composed_frame_transform() {
    // After two identical CoordSystem ticks, the frame equals the frame
    // transform applied twice by hand.
    let mut app = Application::new();
    app.rotation_type = Rotation::CoordSystem;
    app.rotation_axis = unit_z();
    app.delta_angle = Angle::new(4, 3, 5).unwrap();
    app.translation_axis = Vec3::from_ints(1, 0, 0);
    app.shapes = Vec::new();
    let mut by_hand = app.world_axes;
    app.update_state();
    app.update_state();
    for _ in 0..2 {
        let pivot = by_hand.location();
        by_hand.rotate(&pivot, &Vec3::from_ints(0, 0, 1), &Angle::new(4, 3, 5).unwrap());
        by_hand.translate(&Vec3::from_ints(1, 0, 0), &Rat::from_int(5));
    }
    assert_eq!(app.world_axes, by_hand);
}
