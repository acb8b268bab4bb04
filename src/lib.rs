//! Integer core of a scene ray tracer: nearest-hit and face selection, shadow tests,
//! texture wrapping and framebuffer assembly.
pub mod raster;
pub mod texture;
pub mod trace;
pub mod cube;
