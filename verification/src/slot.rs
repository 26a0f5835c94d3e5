//! The binding targets: binding objects, and working on what is bound.
pub mod buffer;
pub mod framebuffer;
pub mod marker;
pub mod program;
pub mod renderbuffer;
pub mod texture;
pub mod vertex_array;
