//! The fixed parameters of the render pipeline that every effect is drawn
//! with.
//!
//! Each effect is drawn into its own off-screen colour texture with four
//! 8-bit channels, by one draw call of a full-screen quad that has no vertex
//! buffer.

use vstd::prelude::*;

verus! {

/// The width of the target texture, in pixels.
pub const TEXTURE_WIDTH: u32 = 320;

/// The height of the target texture, in pixels.
pub const TEXTURE_HEIGHT: u32 = 200;

/// The number of vertices of the full-screen quad: two triangles.
pub const QUAD_VERTICES: u32 = 6;

/// The bind group that holds the time uniform.
pub const UNIFORM_GROUP: u32 = 0;

/// The binding of the time uniform within its bind group.
pub const UNIFORM_BINDING: u32 = 0;

/// The entry point of the vertex stage of every effect program.
pub const VERTEX_ENTRY_POINT: &'static str = "vs_main";

/// The entry point of the fragment stage of every effect program.
pub const FRAGMENT_ENTRY_POINT: &'static str = "fs_main";

} // verus!
