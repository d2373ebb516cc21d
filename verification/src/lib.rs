//! GPU-side planning for a two-mesh morphing viewer.
//!
//! The viewer loads two textured meshes, expands them into flat (non-indexed)
//! vertex streams, uploads them to the GPU and lets a compute pass blend one
//! mesh into the other.  This crate holds the parts of that program that are
//! plain logic: the uniform block, the buffer sizes and dispatch counts, the
//! binding layouts and bind groups, mesh de-indexing, texture conversion to
//! RGBA and the input handling of the viewer window.

pub mod resources;
pub mod sizing;
pub mod bindings;
pub mod mesh;
pub mod texture;
pub mod controls;
