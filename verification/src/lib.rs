//! An exact-arithmetic engine for a wireframe viewer: rigid bodies, coordinate
//! frames, pivot-relative rotation and translation, a rotation-mode state
//! machine, and an orthographic projector.
//!
//! All coordinates are exact rationals (an integer numerator triple over a
//! positive integer denominator), and every rotation is a scaled orthogonal
//! integer matrix, so rigid-motion invariants hold exactly rather than within
//! floating tolerance.

pub mod application;
pub mod axes;
pub mod projector;
pub mod rat;
pub mod rotor;
pub mod shape3d;
pub mod vec3;
