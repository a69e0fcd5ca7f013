//! Holds the exact engine against a floating-point reference: the same
//! rotations computed with `glam`'s double-precision quaternions land on
//! the same points within floating tolerance.

use glam::{DQuat, DVec3};
use wireframe::rotor::{Angle, Rotor};
use wireframe::vec3::Vec3;

const TOLERANCE: f64 = 1e-9;

fn as_f64(v: &Vec3) -> DVec3 {
    DVec3::new(
        v.x as f64 / v.den as f64,
        v.y as f64 / v.den as f64,
        v.z as f64 / v.den as f64,
    )
}

#[test]
fn exact_rotation_matches_glam_quaternion() {
    // cos = 4/5, sin = 3/5 about +Z.
    let angle = Angle::new(4, 3, 5).unwrap();
    let rot = Rotor::from_axis_angle(&Vec3::from_ints(0, 0, 1), &angle).unwrap();
    let pivot = Vec3::from_ints(7, -3, 2);
    let p = Vec3::from_ints(200, 0, 100);
    let exact = rot.rotate_about(&pivot, &p);

    let theta = (3.0f64 / 5.0).atan2(4.0 / 5.0);
    let quat = DQuat::from_axis_angle(DVec3::Z, theta);
    let pf = as_f64(&p);
    let cf = as_f64(&pivot);
    let reference = cf + quat.mul_vec3(pf - cf);

    let got = as_f64(&exact);
    assert!((got - reference).length() < TOLERANCE, "{got} vs {reference}");
}

#[test]
fn exact_pythagorean_unit_axis_matches_glam() {
    // The axis (2, 3, 6) / 7 is exactly unit length.
    let axis = wireframe::vec3::Vec3 { x: 2, y: 3, z: 6, den: 7 };
    let angle = Angle::new(4, 3, 5).unwrap();
    let rot = Rotor::from_axis_angle(&axis, &angle).unwrap();
    let p = Vec3::from_ints(10, 20, 30);
    let exact = rot.rotate_about(&Vec3::zero(), &p);

    let theta = (3.0f64 / 5.0).atan2(4.0 / 5.0);
    let axis_f = DVec3::new(2.0 / 7.0, 3.0 / 7.0, 6.0 / 7.0);
    let quat = DQuat::from_axis_angle(axis_f, theta);
    let reference = quat.mul_vec3(as_f64(&p));

    let got = as_f64(&exact);
    assert!((got - reference).length() < TOLERANCE, "{got} vs {reference}");
}

#[test]
fn golden_ratio_stand_in_is_close() {
    let phi = (1.0 + 5.0f64.sqrt()) / 2.0;
    let approx = wireframe::shape3d::PHI_NUM as f64 / wireframe::shape3d::PHI_DEN as f64;
    assert!((phi - approx).abs() < 1e-4);
}
