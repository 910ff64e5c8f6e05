//! Camera and projector transforms for a GPU-backed 3D viewer.
//!
//! Scalars are IEEE 754 single-precision values carried as their 32-bit
//! patterns, so statements about them are exact at the bit level wherever
//! a value is not NaN; when an operation produces a NaN is itself pinned
//! exactly, while the NaN's payload is the machine's choice.

pub mod camera;
pub mod cube;
pub mod fbits;
pub mod frame;
pub mod model;
pub mod mat;
pub mod orbit;
pub mod projector;
pub mod vec;
