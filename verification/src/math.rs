use vstd::prelude::*;

verus! {

/// An integer coordinate in 2D space (pixels, grid cells, mouse positions).
#[derive(Debug, Clone, Copy, PartialEq, Eq, PartialOrd, Ord, Structural)]
pub struct Point(pub i32, pub i32);

/// The smaller of two integers.
pub open spec fn min_i(a: int, b: int) -> int {
    if a <= b { a } else { b }
}

/// The larger of two integers.
pub open spec fn max_i(a: int, b: int) -> int {
    if a >= b { a } else { b }
}

/// Whether `p` lies in the closed axis-aligned rectangle spanned by the corners `c1` and `c2`,
/// in whichever order the corners are given.
pub open spec fn within(p: Point, c1: Point, c2: Point) -> bool {
    &&& min_i(c1.0 as int, c2.0 as int) <= p.0 <= max_i(c1.0 as int, c2.0 as int)
    &&& min_i(c1.1 as int, c2.1 as int) <= p.1 <= max_i(c1.1 as int, c2.1 as int)
}

impl Point {
    pub fn x(&self) -> (x: i32)
        ensures
            x == self.0,
    {
        self.0
    }

    pub fn y(&self) -> (y: i32)
        ensures
            y == self.1,
    {
        self.1
    }

    /// Whether this point lies in the rectangle spanned by `p1` and `p2` (borders included).
    pub fn in_area(&self, p1: Point, p2: Point) -> (r: bool)
        ensures
            r == within(*self, p1, p2),
            r <==> ((p1.0 <= self.0 <= p2.0 || p2.0 <= self.0 <= p1.0) && (p1.1 <= self.1 <= p2.1
                || p2.1 <= self.1 <= p1.1)),
    {
        let min_x = if p1.x() <= p2.x() { p1.x() } else { p2.x() };
        let max_x = if p1.x() >= p2.x() { p1.x() } else { p2.x() };
        let min_y = if p1.y() <= p2.y() { p1.y() } else { p2.y() };
        let max_y = if p1.y() >= p2.y() { p1.y() } else { p2.y() };

        self.x() >= min_x && self.x() <= max_x && self.y() >= min_y && self.y() <= max_y
    }
}

/// A point is in the rectangle exactly when each of its coordinates lies between the
/// corners' coordinates on that axis; in particular a point beyond both corners on any
/// side is outside.
pub proof fn law_in_area_between_corners(p: Point, c1: Point, c2: Point)
    ensures
        within(p, c1, c2) <==> ((c1.0 <= p.0 <= c2.0 || c2.0 <= p.0 <= c1.0) && (c1.1 <= p.1 <= c2.1
            || c2.1 <= p.1 <= c1.1)),
        (p.0 < c1.0 && p.0 < c2.0) || (p.0 > c1.0 && p.0 > c2.0) ==> !within(p, c1, c2),
        (p.1 < c1.1 && p.1 < c2.1) || (p.1 > c1.1 && p.1 > c2.1) ==> !within(p, c1, c2),
{
}

/// Swapping the two corners does not change the rectangle.
pub proof fn lemma_in_area_corner_order(p: Point, c1: Point, c2: Point)
    ensures
        within(p, c1, c2) == within(p, c2, c1),
{
}

/// Both corners lie in the rectangle they span.
pub proof fn lemma_corners_in_area(c1: Point, c2: Point)
    ensures
        within(c1, c1, c2),
        within(c2, c1, c2),
{
}

} // verus!
