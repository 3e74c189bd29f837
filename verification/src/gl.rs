//! OpenGL enumerants used by the backends, with the values the OpenGL
//! registry assigns them (the same values `glow` exports).

use vstd::prelude::*;

verus! {

/// `GL_ZERO`
pub const ZERO: u32 = 0;

/// `GL_ONE`
pub const ONE: u32 = 1;

/// `GL_SRC_COLOR`
pub const SRC_COLOR: u32 = 0x0300;

/// `GL_ONE_MINUS_SRC_COLOR`
pub const ONE_MINUS_SRC_COLOR: u32 = 0x0301;

/// `GL_SRC_ALPHA`
pub const SRC_ALPHA: u32 = 0x0302;

/// `GL_ONE_MINUS_SRC_ALPHA`
pub const ONE_MINUS_SRC_ALPHA: u32 = 0x0303;

/// `GL_DST_ALPHA`
pub const DST_ALPHA: u32 = 0x0304;

/// `GL_ONE_MINUS_DST_ALPHA`
pub const ONE_MINUS_DST_ALPHA: u32 = 0x0305;

/// `GL_DST_COLOR`
pub const DST_COLOR: u32 = 0x0306;

/// `GL_ONE_MINUS_DST_COLOR`
pub const ONE_MINUS_DST_COLOR: u32 = 0x0307;

/// `GL_FUNC_ADD`
pub const FUNC_ADD: u32 = 0x8006;

/// `GL_MIN`
pub const MIN: u32 = 0x8007;

/// `GL_MAX`
pub const MAX: u32 = 0x8008;

/// `GL_FUNC_SUBTRACT`
pub const FUNC_SUBTRACT: u32 = 0x800A;

/// `GL_FUNC_REVERSE_SUBTRACT`
pub const FUNC_REVERSE_SUBTRACT: u32 = 0x800B;

/// `GL_FRONT`
pub const FRONT: u32 = 0x0404;

/// `GL_BACK`
pub const BACK: u32 = 0x0405;

/// `GL_LESS`
pub const LESS: u32 = 0x0201;

/// `GL_EQUAL`
pub const EQUAL: u32 = 0x0202;

/// `GL_LEQUAL`
pub const LEQUAL: u32 = 0x0203;

/// `GL_GREATER`
pub const GREATER: u32 = 0x0204;

/// `GL_NOTEQUAL`
pub const NOTEQUAL: u32 = 0x0205;

/// `GL_GEQUAL`
pub const GEQUAL: u32 = 0x0206;

/// `GL_ALWAYS`
pub const ALWAYS: u32 = 0x0207;

/// `GL_KEEP`
pub const KEEP: u32 = 0x1E00;

/// `GL_REPLACE`
pub const REPLACE: u32 = 0x1E01;

/// `GL_INCR`
pub const INCR: u32 = 0x1E02;

/// `GL_DECR`
pub const DECR: u32 = 0x1E03;

/// `GL_INVERT`
pub const INVERT: u32 = 0x150A;

/// `GL_INCR_WRAP`
pub const INCR_WRAP: u32 = 0x8507;

/// `GL_DECR_WRAP`
pub const DECR_WRAP: u32 = 0x8508;

/// `GL_STATIC_DRAW`
pub const STATIC_DRAW: u32 = 0x88E4;

/// `GL_DYNAMIC_DRAW`
pub const DYNAMIC_DRAW: u32 = 0x88E8;

/// `GL_FLOAT`
pub const FLOAT: u32 = 0x1406;

/// `GL_RGBA`
pub const RGBA: u32 = 0x1908;

/// `GL_RED`
pub const RED: u32 = 0x1903;

/// `GL_R8`
pub const R8: u32 = 0x8229;

/// `GL_LINEAR`
pub const LINEAR: u32 = 0x2601;

/// `GL_NEAREST`
pub const NEAREST: u32 = 0x2600;

/// `GL_STENCIL_TEST`
pub const STENCIL_TEST: u32 = 0x0B90;

/// `GL_DEPTH_TEST`
pub const DEPTH_TEST: u32 = 0x0B71;

/// `GL_CULL_FACE`
pub const CULL_FACE: u32 = 0x0B44;

/// `GL_BLEND`
pub const BLEND: u32 = 0x0BE2;

/// `GL_UNSIGNED_SHORT`
pub const UNSIGNED_SHORT: u32 = 0x1403;

/// `GL_UNSIGNED_INT`
pub const UNSIGNED_INT: u32 = 0x1405;

/// `GL_TRIANGLES`
pub const TRIANGLES: u32 = 0x0004;

/// `GL_COLOR_BUFFER_BIT`
pub const COLOR_BUFFER_BIT: u32 = 0x4000;

/// `GL_DEPTH_BUFFER_BIT`
pub const DEPTH_BUFFER_BIT: u32 = 0x0100;

/// `GL_STENCIL_BUFFER_BIT`
pub const STENCIL_BUFFER_BIT: u32 = 0x0400;

/// `GL_TEXTURE0`
pub const TEXTURE0: u32 = 0x84C0;

} // verus!
