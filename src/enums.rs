use vstd::prelude::*;

verus! {

// Enumerant values of the OpenGL 4.5 core registry used by this library.

pub const NO_ERROR: u32 = 0;

pub const UNSIGNED_BYTE: u32 = 0x1401;

pub const UNSIGNED_SHORT: u32 = 0x1403;

pub const UNSIGNED_INT: u32 = 0x1405;

pub const FLOAT: u32 = 0x1406;

pub const RED: u32 = 0x1903;

pub const RGBA: u32 = 0x1908;

pub const RGBA8: u32 = 0x8058;

pub const NEAREST: u32 = 0x2600;

pub const LINEAR: u32 = 0x2601;

pub const LINEAR_MIPMAP_LINEAR: u32 = 0x2703;

pub const TEXTURE0: u32 = 0x84C0;

pub const FRAMEBUFFER_COMPLETE: u32 = 0x8CD5;

pub const COLOR_ATTACHMENT0: u32 = 0x8CE0;

pub const DEPTH_ATTACHMENT: u32 = 0x8D00;

} // verus!
