//! Typed buffers, textures, shaders and framebuffers over a graphics
//! device, with a system-memory mirror for buffers that coalesces dirty
//! items into few device writes. The device calls themselves are made by
//! the caller; this crate decides what they are.

pub mod dirtybits;
pub mod glbuffer;
pub mod coalesce;
pub mod buffervec;
pub mod glshader;
pub mod gltexture;
pub mod glcmdbuf;
pub mod mesh;
pub mod glframebuffer;
pub mod common;
pub mod vertexattr;
