//! A ray tracer core: ray/shape intersection, hit selection, shading with
//! recursive reflection and refraction, shadows, and camera ray projection.
//!
//! All geometry runs on an exact fixed-point scalar (a scaled 64-bit integer,
//! see `fx`), so every routine carries a contract that pins its result down to
//! the integer. Image encoding and file output live outside this crate.

pub mod fx;
pub mod tuple;
pub mod color;
pub mod matrix;
pub mod transformations;
pub mod intersection;
pub mod light;
pub mod ray;
pub mod shape;
pub mod sphere;
pub mod plane;
pub mod shapes;
pub mod pattern;
pub mod material;
pub mod world;
pub mod camera;
