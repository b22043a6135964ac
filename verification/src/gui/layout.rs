//! Layouts of widget containers.

use vstd::prelude::*;

verus! {

/// Widgets are laid out from left to right.
pub struct Horizontal;

/// Widgets are laid out from top to bottom.
pub struct Vertical;

/// Widgets float where they are put.
pub struct Floating;

} // verus!
