//! Decision layer of a small OpenGL wrapper: resource records, the closed
//! element-layout table, error probing and the parameters of every draw,
//! upload and attachment call. The calls themselves are made by the caller.

pub mod enums;
pub mod error;
pub mod buffer;
pub mod framebuffer;
pub mod shaders;
pub mod render;
pub mod vertex_array;
pub mod texture;
