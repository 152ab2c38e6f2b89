use vstd::prelude::*;

verus! {

/// Wraps `x + d` back into the `u16` range by two's-complement truncation,
/// for `x` in `[0, u16::MAX]` and a delta `d` in `[-0x10000, 0x10000)`.
/// A negative sum lands near the top of the range, so a later bounds check
/// such as `x >= width` rejects it.
pub open spec fn wrap_add_delta(x: int, d: int) -> int {
    if x + d < 0 {
        x + d + 0x10000
    } else if x + d >= 0x10000 {
        x + d - 0x10000
    } else {
        x + d
    }
}

/// An unsigned (column, row) grid address.
#[derive(Debug, Clone, Copy, PartialEq, Eq, Hash, Structural)]
pub struct Coordinates {
    pub x: u16,
    pub y: u16,
}

impl Coordinates {
    /// Applies a signed per-axis delta. A negative result wraps to a huge
    /// unsigned value instead of going below zero, which downstream range
    /// checks treat as off-grid.
    pub fn add(self, rhs: (i8, i8)) -> (r: Coordinates)
        ensures
            r.x == wrap_add_delta(self.x as int, rhs.0 as int),
            r.y == wrap_add_delta(self.y as int, rhs.1 as int),
    {
        let sx: i32 = self.x as i32 + rhs.0 as i32;
        let sy: i32 = self.y as i32 + rhs.1 as i32;
        let x: u16 = if sx < 0 {
            (sx + 0x10000) as u16
        } else if sx >= 0x10000 {
            (sx - 0x10000) as u16
        } else {
            sx as u16
        };
        let y: u16 = if sy < 0 {
            (sy + 0x10000) as u16
        } else if sy >= 0x10000 {
            (sy - 0x10000) as u16
        } else {
            sy as u16
        };
        Coordinates { x, y }
    }

    /// Componentwise addition that wraps around the `u16` range.
    pub fn add_coordinates(self, rhs: Coordinates) -> (r: Coordinates)
        ensures
            r.x == wrap_add_delta(self.x as int, rhs.x as int),
            r.y == wrap_add_delta(self.y as int, rhs.y as int),
    {
        let sx: u32 = self.x as u32 + rhs.x as u32;
        let sy: u32 = self.y as u32 + rhs.y as u32;
        let x: u16 = if sx >= 0x10000 {
            (sx - 0x10000) as u16
        } else {
            sx as u16
        };
        let y: u16 = if sy >= 0x10000 {
            (sy - 0x10000) as u16
        } else {
            sy as u16
        };
        Coordinates { x, y }
    }

    /// Componentwise saturating subtraction: a difference that would go
    /// below zero stops at zero.
    pub fn sub(self, rhs: Coordinates) -> (r: Coordinates)
        ensures
            r.x == if self.x >= rhs.x { self.x - rhs.x } else { 0 },
            r.y == if self.y >= rhs.y { self.y - rhs.y } else { 0 },
    {
        let x: u16 = if self.x >= rhs.x {
            self.x - rhs.x
        } else {
            0
        };
        let y: u16 = if self.y >= rhs.y {
            self.y - rhs.y
        } else {
            0
        };
        Coordinates { x, y }
    }
}

} // verus!
