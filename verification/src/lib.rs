//! The decision core of a small path tracer.

pub mod relation;
pub mod intersect;
pub mod scene;
pub mod shading;
pub mod ppm;
