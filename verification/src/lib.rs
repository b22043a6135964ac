//! Spectra: building blocks for demoscene productions.
//!
//! This crate holds the engine's logic, verified: the shader module system (imports,
//! dependency resolution, GLSL interface extraction and annotation), render block interfaces,
//! model index regeneration, overlay triangle layout, resource caches and reload schedules,
//! typed identifiers, window options and the runner's event handling.

pub mod bootstrap;
pub mod cache;
pub mod effect;
pub mod gui;
pub mod id;
pub mod logger;
pub mod model;
pub mod object;
pub mod overlay;
pub mod pulse;
pub mod render;
pub mod renderer;
pub mod resource;
pub mod runner;
