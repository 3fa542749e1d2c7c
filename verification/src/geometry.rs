use vstd::prelude::*;

verus! {

/// A cell position on the board: `x` grows to the right, `y` grows upward.
#[derive(Clone, Copy, Debug, PartialEq, Eq, Structural)]
pub struct Coordinate {
    pub x: usize,
    pub y: usize,
}

impl Coordinate {
    pub fn new(x: usize, y: usize) -> (c: Coordinate)
        ensures
            c.x == x,
            c.y == y,
    {
        Coordinate { x, y }
    }
}

/// A signed translation, used both for piece-local geometry and for the
/// world anchor of a falling piece, which may legitimately be negative.
#[derive(Clone, Copy, Debug, PartialEq, Eq, Structural)]
pub struct Offset {
    pub x: isize,
    pub y: isize,
}

/// Every anchor the simulation works with stays far inside the `isize`
/// range, so translating it by a few unit steps can never overflow.
pub open spec fn offset_in_range(o: Offset) -> bool {
    -1000000 <= o.x <= 1000000 && -1000000 <= o.y <= 1000000
}

/// Anchors stored by the simulation keep one unit of slack below the safe
/// range, so a candidate one step away is still safe to project.
pub open spec fn anchor_in_range(o: Offset) -> bool {
    -999999 <= o.x <= 999999 && -999999 <= o.y <= 999999
}

impl Offset {
    pub fn new(x: isize, y: isize) -> (o: Offset)
        ensures
            o.x == x,
            o.y == y,
    {
        Offset { x, y }
    }

    /// Componentwise translation.
    pub fn plus(self, other: Offset) -> (r: Offset)
        requires
            isize::MIN <= self.x + other.x <= isize::MAX,
            isize::MIN <= self.y + other.y <= isize::MAX,
        ensures
            r.x == self.x + other.x,
            r.y == self.y + other.y,
    {
        Offset { x: self.x + other.x, y: self.y + other.y }
    }
}

} // verus!
