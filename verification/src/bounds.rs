use vstd::prelude::*;

verus! {

/// A point or extent on the window, in whole pixels.
#[derive(Debug, Clone, Copy, PartialEq, Eq, Structural)]
pub struct Point2 {
    pub x: i64,
    pub y: i64,
}

/// A placement in the window with a depth coordinate.
#[derive(Debug, Clone, Copy, PartialEq, Eq, Structural)]
pub struct Point3 {
    pub x: i64,
    pub y: i64,
    pub z: i64,
}

/// An axis-aligned rectangle anchored at its bottom-left corner, used for
/// hit-testing the playable area.
#[derive(Debug, Clone, Copy)]
pub struct Bounds2 {
    pub position: Point2,
    pub size: Point2,
}

/// A point lies inside the rectangle, inclusively on all four edges.
pub open spec fn spec_in_bounds(b: Bounds2, p: Point2) -> bool {
    &&& b.position.x <= p.x <= b.position.x + b.size.x
    &&& b.position.y <= p.y <= b.position.y + b.size.y
}

impl Bounds2 {
    /// The extent is nonnegative and corner coordinates stay well inside
    /// the pixel range.
    pub open spec fn wf(&self) -> bool {
        &&& 0 <= self.size.x <= 0x1_0000_0000_0000
        &&& 0 <= self.size.y <= 0x1_0000_0000_0000
        &&& -0x1_0000_0000_0000 <= self.position.x <= 0x1_0000_0000_0000
        &&& -0x1_0000_0000_0000 <= self.position.y <= 0x1_0000_0000_0000
    }

    /// Inclusive containment test: a point exactly on an edge counts as
    /// inside.
    pub fn in_bounds(&self, position: Point2) -> (r: bool)
        ensures
            r == spec_in_bounds(*self, position),
    {
        position.x as i128 >= self.position.x as i128 && position.x as i128 <= self.position.x
            as i128 + self.size.x as i128 && position.y as i128 >= self.position.y as i128
            && position.y as i128 <= self.position.y as i128 + self.size.y as i128
    }
}

/// `in_bounds` is inclusive at both ends of each axis: the far corner
/// `position + size` itself lies inside, while one pixel left of or below
/// `position` lies outside.
pub proof fn lemma_in_bounds_inclusive(b: Bounds2)
    requires
        b.wf(),
    ensures
        spec_in_bounds(
            b,
            (Point2 { x: (b.position.x + b.size.x) as i64, y: (b.position.y + b.size.y) as i64 }),
        ),
        !spec_in_bounds(b, (Point2 { x: (b.position.x - 1) as i64, y: b.position.y })),
        !spec_in_bounds(b, (Point2 { x: b.position.x, y: (b.position.y - 1) as i64 })),
{
}

} // verus!
