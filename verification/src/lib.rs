//! A recursive Monte-Carlo path tracer over fixed-point arithmetic.
//!
//! Scene geometry (spheres, planes, material-substituting decorators), the
//! recursive light-transport algorithm and the sample-accumulation engine are
//! implemented over a deterministic, saturating fixed-point scalar so that
//! every arithmetic step has an exact, machine-checked specification.

pub mod camera;
pub mod checked_obj;
pub mod engine;
pub mod fixed;
pub mod intersect;
pub mod light;
pub mod material;
pub mod object;
pub mod plane;
pub mod ray;
pub mod rng;
pub mod scene;
pub mod spectrum;
pub mod sphere;
pub mod textured_obj;
pub mod vector;
