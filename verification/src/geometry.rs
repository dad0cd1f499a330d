//! Plain integer geometry: points, sizes and rectangles in the logical
//! coordinate space shared by the scene, the seat router and the outputs.

use vstd::prelude::*;

verus! {

/// A point in logical coordinates.
#[derive(Clone, Copy, Debug, PartialEq, Eq, Structural)]
pub struct Point {
    pub x: i32,
    pub y: i32,
}

/// A size in logical coordinates. Well-formed sizes are non-negative.
#[derive(Clone, Copy, Debug, PartialEq, Eq, Structural)]
pub struct Size {
    pub w: i32,
    pub h: i32,
}

/// An axis-aligned rectangle: position of its top-left corner plus size.
#[derive(Clone, Copy, Debug, PartialEq, Eq, Structural)]
pub struct Rect {
    pub pos: Point,
    pub size: Size,
}

impl Size {
    /// A size is valid when both dimensions are non-negative.
    pub open spec fn valid(self) -> bool {
        self.w >= 0 && self.h >= 0
    }

    /// The area is zero when either dimension is zero.
    pub open spec fn spec_is_empty(self) -> bool {
        self.w <= 0 || self.h <= 0
    }

    /// True when the size spans no pixels at all.
    pub fn is_empty(&self) -> (r: bool)
        ensures
            r == self.spec_is_empty(),
    {
        self.w <= 0 || self.h <= 0
    }
}

impl Rect {
    /// A rectangle is valid when its size is non-negative.
    pub open spec fn valid(self) -> bool {
        self.size.valid()
    }

    /// Whether `p` lies inside the rectangle (left/top edge inclusive,
    /// right/bottom edge exclusive).
    pub open spec fn spec_contains(self, p: Point) -> bool {
        &&& self.pos.x <= p.x < self.pos.x + self.size.w
        &&& self.pos.y <= p.y < self.pos.y + self.size.h
    }

    /// Hit test: whether `p` lies inside the rectangle.
    pub fn contains(&self, p: Point) -> (r: bool)
        ensures
            r == self.spec_contains(p),
    {
        self.pos.x <= p.x && (p.x as i64) < self.pos.x as i64 + self.size.w as i64
            && self.pos.y <= p.y && (p.y as i64) < self.pos.y as i64 + self.size.h as i64
    }

    /// Build a rectangle from its four components.
    pub fn new(x: i32, y: i32, w: i32, h: i32) -> (r: Rect)
        ensures
            r.pos.x == x && r.pos.y == y && r.size.w == w && r.size.h == h,
    {
        Rect { pos: Point { x, y }, size: Size { w, h } }
    }
}

} // verus!
