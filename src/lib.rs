//! Verified core of a small path tracer: exact vector algebra on the integer
//! lattice, the pixel hash, scene and log-level selection, and the layout of
//! the output pixel buffer.
pub mod color;
pub mod misc;
pub mod rendering;
pub mod scene;
pub mod v3;
pub mod vec3;
