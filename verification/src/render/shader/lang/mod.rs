//! Shading language: an augmented GLSL with import lists.

pub mod syntax;
