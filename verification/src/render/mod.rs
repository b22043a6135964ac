//! Render-related types: shader modules and their syntax, render inputs and outputs.

pub mod block;
pub mod input;
pub mod output;
pub mod shader;
pub mod type_channel;
