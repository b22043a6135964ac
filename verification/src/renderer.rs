//! Renderers.

use vstd::prelude::*;

verus! {

/// Something that renders an input into an output.
pub trait Renderer<Input, Output> {
    fn render(&self, input: Input) -> Output;
}

} // verus!
