//! Shared scene state of a presentation remote: a registry of slides, a
//! monotone slide-id allocator and the slide that is currently shown.

pub mod scene;
pub mod service;
pub mod laws;
