//! Verified core of a block-definition mesh viewer: a decoder for a compact
//! little-endian binary mesh format, a renderer-agnostic geometry model,
//! a scene with a change-tracking paint handshake, and the renderer's
//! translucency draw-order policy.
//!
//! Floating-point values that travel through the library (vertex positions,
//! normals, transforms, line widths) are carried as their IEEE-754 bit
//! patterns in `u32` fields, so that parsing and structural transformations
//! are bit-exact and fully verified; all floating-point arithmetic (centers,
//! face normals, camera math) is left to the unverified host around the
//! library.

pub mod bytes;
pub mod color4;
pub mod definition;
pub mod definition_schema;
pub mod line;
pub mod mesh;
pub mod scene;
pub mod scene_renderer;
pub mod shader_type;
pub mod surface_mesh;
pub mod sw_mesh;
