//! Geometry primitives for the game world: integer coordinates, sprite
//! anchors and sprite colors.  World positions are whole pixels.

use vstd::prelude::*;

verus! {

/// A point or extent in world pixels.
#[derive(Clone, Copy, PartialEq, Eq, Structural, Debug)]
pub struct Vec2I {
    pub x: i64,
    pub y: i64,
}

impl Vec2I {
    /// The point `(x, y)`.
    pub fn new(x: i64, y: i64) -> (v: Vec2I)
        ensures
            v == (Vec2I { x, y }),
    {
        Vec2I { x, y }
    }
}

/// The corner or edge of a sprite that sits on its position.
#[derive(Clone, Copy, PartialEq, Eq, Structural, Debug)]
pub enum Anchor {
    Center,
    TopLeft,
    TopCenter,
    TopRight,
    CenterLeft,
    CenterRight,
    BottomLeft,
    BottomCenter,
    BottomRight,
}

/// A sprite color with each channel in thousandths (0 is dark, 1000 full).
#[derive(Clone, Copy, PartialEq, Eq, Structural, Debug)]
pub struct ColorMilli {
    pub r: u16,
    pub g: u16,
    pub b: u16,
}

/// `v` forced into `[lo, hi]`.
pub open spec fn spec_clamp(v: int, lo: int, hi: int) -> int {
    if v < lo {
        lo
    } else if v > hi {
        hi
    } else {
        v
    }
}

/// `v` forced into `[lo, hi]`.
pub fn clamp_i64(v: i64, lo: i64, hi: i64) -> (r: i64)
    requires
        lo <= hi,
    ensures
        r == spec_clamp(v as int, lo as int, hi as int),
{
    if v < lo {
        lo
    } else if v > hi {
        hi
    } else {
        v
    }
}

} // verus!
