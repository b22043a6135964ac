//! Cheddar: a GLSL-augmented language with import statements.
pub mod syntax;
