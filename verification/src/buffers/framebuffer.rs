//! Framebuffers and what attaches to them.

pub mod attachment;
pub mod fbo;
pub mod rbo;
