//! Frame translation for an immediate-mode GUI render pipeline.
//!
//! Per frame, the host hands this library the GUI's tessellated output:
//! textured triangle meshes with clip rectangles, texture update deltas,
//! and a screen descriptor. The library turns that into GPU-ready data:
//! concatenated vertex/index buffers, per-primitive draw groups with
//! device-pixel scissor rectangles, texture upload commands, and the
//! indexed draw calls to issue. The host performs the actual GPU calls.

pub mod geometry;
pub mod pipe;
pub mod rect;
pub mod texture;
