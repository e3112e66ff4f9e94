//! A stochastic ray tracer for scenes of spheres, built on exact fixed-point
//! arithmetic so that the geometry, the material model and the integrator can
//! be verified.
//!
//! Scalars are `i64` raw values scaled by `2^16`: the raw value `65536` stands
//! for the real number `1`. Every arithmetic operation is total — results are
//! saturated into a fixed range instead of overflowing — and each executable
//! operation is pinned to a spec-level twin, so contracts state exactly what
//! each function computes.

pub mod camera;
pub mod fixed;
pub mod material;
pub mod ray;
pub mod rng;
pub mod scene;
pub mod sphere;
pub mod tracer;
pub mod vector;
