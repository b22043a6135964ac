//! Graphical user interface geometry.

use vstd::prelude::*;

pub mod layout;

verus! {

/// A length, in pixels.
pub type Px = u32;

/// A position on screen, in pixels; the upper-left corner is the origin.
#[derive(Clone, Copy, Debug, PartialEq, Eq, Structural)]
pub struct Pos {
    pub x: Px,
    pub y: Px,
}

impl Pos {
    /// The position `(x, y)`.
    pub fn new(x: Px, y: Px) -> (res: Self)
        ensures
            res.x == x,
            res.y == y,
    {
        Pos { x, y }
    }
}

/// A rectangle on screen. Upper-left is origin: `lower` is the lower-left corner and `upper` the
/// upper-right one.
#[derive(Clone, Copy, Debug, PartialEq, Eq, Structural)]
pub struct Rect {
    lower: Pos,
    upper: Pos,
}

impl Rect {
    /// The lower-left corner.
    pub closed spec fn lower(&self) -> Pos {
        self.lower
    }

    /// The upper-right corner.
    pub closed spec fn upper(&self) -> Pos {
        self.upper
    }

    /// The rectangle whose upper-left corner is `upper_left`, `w` pixels wide and `h` pixels
    /// high. Its corners must stand on the screen's coordinates.
    pub fn new(upper_left: Pos, w: Px, h: Px) -> (res: Self)
        requires
            upper_left.x + w <= u32::MAX,
            upper_left.y + h <= u32::MAX,
        ensures
            res.lower() == (Pos { x: upper_left.x, y: (upper_left.y + h) as u32 }),
            res.upper() == (Pos { x: (upper_left.x + w) as u32, y: upper_left.y }),
    {
        Rect {
            lower: Pos::new(upper_left.x, upper_left.y + h),
            upper: Pos::new(upper_left.x + w, upper_left.y),
        }
    }

    /// The lower-left corner.
    pub fn get_lower(&self) -> (res: Pos)
        ensures
            res == self.lower(),
    {
        self.lower
    }

    /// The upper-right corner.
    pub fn get_upper(&self) -> (res: Pos)
        ensures
            res == self.upper(),
    {
        self.upper
    }
}

} // verus!
