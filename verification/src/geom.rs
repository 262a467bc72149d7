//! Integer 2-d geometry: points and rectangles in whole units.

use vstd::prelude::*;

verus! {

/// A point or size in whole units.
#[derive(Clone, Copy, PartialEq, Eq, Structural, Debug)]
pub struct Vec2I {
    pub x: i64,
    pub y: i64,
}

impl Vec2I {
    pub fn zero() -> (r: Vec2I)
        ensures
            r == (Vec2I { x: 0, y: 0 }),
    {
        Vec2I { x: 0, y: 0 }
    }
}

/// An axis-aligned rectangle; `w` and `h` are extents from the `(x, y)` corner.
#[derive(Clone, Copy, PartialEq, Eq, Structural, Debug)]
pub struct RectI {
    pub x: i64,
    pub y: i64,
    pub w: i64,
    pub h: i64,
}

impl RectI {
    /// A point is inside the rectangle, borders included.
    pub open spec fn spec_contains(self, x: int, y: int) -> bool {
        &&& self.x <= x <= self.x + self.w
        &&& self.y <= y <= self.y + self.h
    }

    pub fn contains(&self, x: i64, y: i64) -> (r: bool)
        ensures
            r == self.spec_contains(x as int, y as int),
    {
        let xw: i128 = self.x as i128 + self.w as i128;
        let yh: i128 = self.y as i128 + self.h as i128;
        x >= self.x && x as i128 <= xw && y >= self.y && y as i128 <= yh
    }

    pub fn zero() -> (r: RectI)
        ensures
            r == (RectI { x: 0, y: 0, w: 0, h: 0 }),
    {
        RectI { x: 0, y: 0, w: 0, h: 0 }
    }
}

} // verus!
