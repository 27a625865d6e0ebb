//! A verified model of a GPU frame-rendering lifecycle.
//!
//! The library describes the logic of a small renderer that draws a rotating
//! cube: the fixed cube mesh, the choice of a surface pixel format, the
//! surface configuration and its resize rule, the uniform buffers for the
//! camera and model transforms, the structural match between a binding set
//! and a pipeline layout, and the per-tick frame driver with its
//! single-retry policy for a stale surface. The GPU itself, the windowing
//! system and the floating-point matrix arithmetic live outside the library;
//! the library fixes every decision they act on.

pub mod binding;
pub mod driver;
pub mod geometry;
pub mod pipeline;
pub mod state;
pub mod surface;
pub mod uniforms;
