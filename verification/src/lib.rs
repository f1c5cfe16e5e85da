//! A verified model of a canvas-hosted rotating-cube renderer.
//!
//! The crate holds the decision logic of the renderer: how construction
//! outcomes map to errors, the fixed cube geometry, the start/stop
//! animation lifecycle, and the parameters of each frame's draw call.
//! The host-facing plumbing (DOM lookup, GPU calls, frame scheduling)
//! lives outside the library and feeds plain values in.

pub mod cube;
pub mod errors;
pub mod frame;
pub mod geometry;
pub mod program;
