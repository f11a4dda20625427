//! Buffer objects, vertex arrays and framebuffers.

pub mod ebo;
pub mod framebuffer;
pub mod vao;
pub mod vbo;
