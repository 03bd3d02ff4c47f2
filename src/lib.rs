//! The discrete decisions of a Monte Carlo path tracer over spheres: which root
//! of a ray-sphere quadratic is the hit, which scene member is nearest, when a
//! light path stops bouncing, and in which order pixels are emitted.
//!
//! Distances enter the library as order keys: integers that compare exactly as
//! the distances they stand for. The arithmetic that produces distances and
//! colours stays with the caller.

pub mod integrator;
pub mod raster;
pub mod scene;
pub mod sphere;
