use vstd::prelude::*;

verus! {

/// Marker for a rendered cell that holds a mine.
#[derive(Debug, Clone, Copy, PartialEq, Eq, Hash, Structural)]
pub struct Bomb;

/// Marker carrying a rendered cell's count of adjacent mines.
#[derive(Debug, Clone, Copy, PartialEq, Eq, Hash, Structural)]
pub struct BombNeighbor {
    pub count: u8,
}

/// Marker for a cell whose cover is to be removed.
#[derive(Debug, Clone, Copy, PartialEq, Eq, Hash, Structural)]
pub struct Uncover;

} // verus!
