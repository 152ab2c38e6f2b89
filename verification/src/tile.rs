use vstd::prelude::*;
use vstd::string::StringExecFns;

use crate::text::decimal_string;
use crate::text::spec_decimal;

verus! {

/// One cell's classification.
#[derive(Debug, Clone, Copy, PartialEq, Eq, Structural)]
pub enum Tile {
    /// The cell holds a mine.
    Bomb,
    /// The cell is adjacent to this many mines.
    BombNeighbor(u8),
    /// The cell is empty and no adjacent cell holds a mine.
    Empty,
}

/// The character sequence that `Tile::console_output` produces: `*` for a
/// mine, the neighbor count in decimal for a numbered cell, a space for an
/// empty cell.
pub open spec fn spec_tile_text(t: Tile) -> Seq<char> {
    match t {
        Tile::Bomb => seq!['*'],
        Tile::BombNeighbor(n) => spec_decimal(n as int),
        Tile::Empty => seq![' '],
    }
}

impl Tile {
    /// True exactly when the tile holds a mine.
    pub fn is_bomb(&self) -> (r: bool)
        ensures
            r == (*self is Bomb),
    {
        matches!(self, Tile::Bomb)
    }

    /// One cell of a console rendering of the map.
    pub fn console_output(&self) -> (r: String)
        ensures
            r@ == spec_tile_text(*self),
    {
        match self {
            Tile::Bomb => {
                proof {
                    reveal_strlit("*");
                    assert("*"@ =~= seq!['*']);
                }
                "*".to_owned()
            },
            Tile::BombNeighbor(n) => decimal_string(*n as u16),
            Tile::Empty => {
                proof {
                    reveal_strlit(" ");
                    assert(" "@ =~= seq![' ']);
                }
                " ".to_owned()
            },
        }
    }
}

} // verus!
