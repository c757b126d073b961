//! Fixed-point positions and rectangles in screen space.
use vstd::prelude::*;

verus! {

/// Number of fixed-point steps in one point of screen space.
pub const STEPS_PER_POINT: i64 = 256;

/// Coordinates of a position handed to the translation lie strictly between
/// `-COORD_LIMIT` and `COORD_LIMIT`, so that the difference of two of them
/// fits in an `i64`.
pub const COORD_LIMIT: i64 = 0x4000_0000_0000_0000;

/// A position in screen space, each coordinate counted in steps of
/// `1 / STEPS_PER_POINT` of a point.
#[derive(Clone, Copy, Debug, PartialEq, Eq, Structural)]
pub struct Pos {
    pub x: i64,
    pub y: i64,
}

/// An axis-aligned rectangle from `min` (top left) to `max` (bottom right).
#[derive(Clone, Copy, Debug, PartialEq, Eq, Structural)]
pub struct Rect {
    pub min: Pos,
    pub max: Pos,
}

impl Pos {
    /// Both coordinates lie strictly between `-COORD_LIMIT` and `COORD_LIMIT`.
    pub open spec fn in_range(self) -> bool {
        &&& -COORD_LIMIT < self.x < COORD_LIMIT
        &&& -COORD_LIMIT < self.y < COORD_LIMIT
    }

    /// The position `self - origin`, coordinate by coordinate.
    pub open spec fn shifted(self, origin: Pos) -> Pos {
        Pos { x: (self.x - origin.x) as i64, y: (self.y - origin.y) as i64 }
    }

    /// Whether both coordinates are within `COORD_LIMIT`.
    pub fn is_in_range(&self) -> (r: bool)
        ensures
            r == self.in_range(),
    {
        -COORD_LIMIT < self.x && self.x < COORD_LIMIT && -COORD_LIMIT < self.y && self.y
            < COORD_LIMIT
    }

    /// This position as seen from `origin`: `origin` is subtracted from each
    /// coordinate, with no clamping, so a position above or left of `origin`
    /// comes out negative.
    pub fn relative_to(self, origin: Pos) -> (r: Pos)
        requires
            self.in_range(),
            origin.in_range(),
        ensures
            r == self.shifted(origin),
            r.x == self.x - origin.x,
            r.y == self.y - origin.y,
    {
        Pos { x: self.x - origin.x, y: self.y - origin.y }
    }
}

impl Rect {
    /// Width of the rectangle, in steps.
    pub open spec fn width(self) -> int {
        self.max.x - self.min.x
    }

    /// Height of the rectangle, in steps.
    pub open spec fn height(self) -> int {
        self.max.y - self.min.y
    }

    /// The rectangle with its top left corner at the origin and the given size.
    pub fn from_size(width: i64, height: i64) -> (r: Rect)
        ensures
            r.min == (Pos { x: 0, y: 0 }),
            r.max == (Pos { x: width, y: height }),
            r.width() == width,
            r.height() == height,
    {
        Rect { min: Pos { x: 0, y: 0 }, max: Pos { x: width, y: height } }
    }
}

} // verus!
