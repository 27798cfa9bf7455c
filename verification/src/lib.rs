//! A small Whitted-style ray tracer whose arithmetic is carried out in
//! saturating fixed-point: a scalar is an `i64` holding `value * SCALE`.
//! The geometry kernel, the surface intersection tests, the recursive
//! shading engine and the tile partitioning are all verified; the
//! surrounding program supplies the scene, the trigonometry for the camera
//! direction and the image encoding.

pub mod camera;
pub mod fixed;
pub mod intersectable;
pub mod plane;
pub mod sphere;
pub mod trace;
pub mod pixel;
pub mod ray;
pub mod rayhit;
pub mod scheduler;
pub mod vector;
