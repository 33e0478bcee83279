//! Escape-time rendering of the Mandelbrot set.
//!
//! The crate verifies the discrete core of the renderer: the per-step
//! decisions of the escape loop, the termination policy that turns a step
//! count and a smoothing correction into a byte, and the geometry of the
//! rendered window together with the layout of the output buffer.  The
//! floating-point work (the iterate update `z * z + c`, the threshold test
//! and the smoothing logarithms) is carried out by the caller, which feeds
//! its outcomes into the verified functions step by step.

pub mod escape;
pub mod grid;
