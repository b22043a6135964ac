//! Shaders: the module system and its GLSL syntax.

pub mod ast;
pub mod cheddar;
pub mod lang;
pub mod module;
pub mod program;
