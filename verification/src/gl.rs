//! The WebGL enumerants that the demos hand to the graphics context.
//!
//! The values are the ones that the WebGL standard assigns; the tests hold
//! each of them to the binding that the browser application links against.

use vstd::prelude::*;

verus! {

/// Buffer target for vertex attribute data.
pub const ARRAY_BUFFER: u32 = 0x8892;

/// Usage hint: the data is written once and drawn many times.
pub const STATIC_DRAW: u32 = 0x88E4;

/// Component type: single-precision floating point.
pub const FLOAT: u32 = 0x1406;

/// Component type: one unsigned byte per channel.
pub const UNSIGNED_BYTE: u32 = 0x1401;

/// Primitive mode: every three vertices form one triangle.
pub const TRIANGLES: u32 = 0x0004;

/// Texture target for two-dimensional images.
pub const TEXTURE_2D: u32 = 0x0DE1;

/// Pixel format with red, green, blue and alpha channels.
pub const RGBA: u32 = 0x1908;

/// Shader kind: runs once per vertex.
pub const VERTEX_SHADER: u32 = 0x8B31;

/// Shader kind: runs once per covered pixel.
pub const FRAGMENT_SHADER: u32 = 0x8B30;

} // verus!
