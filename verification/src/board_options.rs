use vstd::prelude::*;

use crate::bounds::Point2;
use crate::bounds::Point3;

verus! {

/// How the pixel size of a tile is chosen.
#[derive(Debug)]
pub enum TileSize {
    /// A fixed pixel size.
    Fixed(i64),
    /// Fit the window, clamped between a smallest and a largest size.
    Adaptive { min: i64, max: i64 },
}

/// Where the board is placed in the window.
#[derive(Debug, Clone, Copy)]
pub enum BoardPosition {
    /// Centered on the window, shifted by an offset.
    Centered { offset: Point3 },
    /// An explicit placement.
    Custom(Point3),
}

/// The configuration the host hands over once at startup.
#[derive(Debug)]
pub struct BoardOptions {
    /// Grid dimensions as (width, height).
    pub map_size: (u16, u16),
    /// How many mines to place.
    pub bomb_count: u16,
    /// Where the board is placed.
    pub position: BoardPosition,
    /// How the tile pixel size is chosen.
    pub tile_size: TileSize,
    /// Pixels left free between neighboring tiles.
    pub tile_padding: i64,
    /// Declared but unused here: whether the first uncover must miss every
    /// mine.
    pub safe_start: bool,
}

/// The policy names positive tile sizes that fit the pixel range, with a
/// smallest size no larger than the largest.
pub open spec fn tile_size_wf(t: TileSize) -> bool {
    match t {
        TileSize::Fixed(v) => 1 <= v <= 0x7fff_ffff,
        TileSize::Adaptive { min, max } => 1 <= min <= max <= 0x7fff_ffff,
    }
}

/// The placement's coordinates fit the pixel range.
pub open spec fn board_position_wf(p: BoardPosition) -> bool {
    match p {
        BoardPosition::Centered { offset } => {
            &&& -0x7fff_ffff <= offset.x <= 0x7fff_ffff
            &&& -0x7fff_ffff <= offset.y <= 0x7fff_ffff
            &&& -0x7fff_ffff <= offset.z <= 0x7fff_ffff
        },
        BoardPosition::Custom(v) => {
            &&& -0x7fff_ffff <= v.x <= 0x7fff_ffff
            &&& -0x7fff_ffff <= v.y <= 0x7fff_ffff
            &&& -0x7fff_ffff <= v.z <= 0x7fff_ffff
        },
    }
}

impl BoardOptions {
    /// The configuration describes a real board: at least one row and
    /// column, and policies whose numbers fit the pixel range.
    pub open spec fn wf(&self) -> bool {
        &&& self.map_size.0 >= 1
        &&& self.map_size.1 >= 1
        &&& tile_size_wf(self.tile_size)
        &&& board_position_wf(self.position)
        &&& 0 <= self.tile_padding <= 0x7fff_ffff
    }
}

/// `v` pushed into `[lo, hi]`.
pub open spec fn spec_clamp(v: int, lo: int, hi: int) -> int {
    if v < lo {
        lo
    } else if v > hi {
        hi
    } else {
        v
    }
}

/// The concrete tile pixel size for a window: a fixed policy passes its
/// value through; an adaptive one divides the window by the grid on each
/// axis, takes the smaller quotient, and clamps it between its two bounds.
pub open spec fn spec_resolve_tile_size(window: Point2, t: TileSize, map_size: (u16, u16)) -> int {
    match t {
        TileSize::Fixed(v) => v as int,
        TileSize::Adaptive { min, max } => spec_clamp(
            vstd::math::min(
                window.x as int / map_size.0 as int,
                window.y as int / map_size.1 as int,
            ),
            min as int,
            max as int,
        ),
    }
}

/// The absolute placement of a board of the given pixel size: a custom
/// policy passes its point through; centering puts the board's lower-left
/// corner half the board left of and below the offset.
pub open spec fn spec_resolve_board_position(board_size: Point2, p: BoardPosition) -> Point3 {
    match p {
        BoardPosition::Custom(v) => v,
        BoardPosition::Centered { offset } => (Point3 {
            x: (offset.x - board_size.x / 2) as i64,
            y: (offset.y - board_size.y / 2) as i64,
            z: 0,
        }),
    }
}

/// Resolves the tile-size policy against the window and grid dimensions.
pub fn resolve_tile_size(window: Point2, tile_size: &TileSize, map_size: (u16, u16)) -> (r: i64)
    requires
        tile_size_wf(*tile_size),
        0 <= window.x <= 0x7fff_ffff,
        0 <= window.y <= 0x7fff_ffff,
        map_size.0 >= 1,
        map_size.1 >= 1,
    ensures
        r == spec_resolve_tile_size(window, *tile_size, map_size),
        1 <= r <= 0x7fff_ffff,
{
    match tile_size {
        TileSize::Fixed(v) => *v,
        TileSize::Adaptive { min, max } => {
            let tile_width: u64 = (window.x as u64) / (map_size.0 as u64);
            let tile_height: u64 = (window.y as u64) / (map_size.1 as u64);
            let smaller: i64 = if tile_width < tile_height {
                tile_width as i64
            } else {
                tile_height as i64
            };
            if smaller < *min {
                *min
            } else if smaller > *max {
                *max
            } else {
                smaller
            }
        },
    }
}

/// Resolves the placement policy against the board's pixel size.
pub fn resolve_board_position(board_size: Point2, position: &BoardPosition) -> (r: Point3)
    requires
        0 <= board_size.x <= 0x1_0000_0000_0000,
        0 <= board_size.y <= 0x1_0000_0000_0000,
        board_position_wf(*position),
    ensures
        r == spec_resolve_board_position(board_size, *position),
{
    match position {
        BoardPosition::Custom(v) => *v,
        BoardPosition::Centered { offset } => {
            let half_w: i64 = ((board_size.x as u64) / 2) as i64;
            let half_h: i64 = ((board_size.y as u64) / 2) as i64;
            Point3 { x: offset.x - half_w, y: offset.y - half_h, z: 0 }
        },
    }
}

impl Default for TileSize {
    /// Adaptive between ten and fifty pixels.
    fn default() -> (r: Self)
        ensures
            r == (TileSize::Adaptive { min: 10i64, max: 50i64 }),
    {
        TileSize::Adaptive { min: 10, max: 50 }
    }
}

impl Default for BoardPosition {
    /// Centered with no offset.
    fn default() -> (r: Self)
        ensures
            r == (BoardPosition::Centered { offset: (Point3 { x: 0i64, y: 0i64, z: 0i64 }) }),
    {
        BoardPosition::Centered { offset: Point3 { x: 0, y: 0, z: 0 } }
    }
}

impl Default for BoardOptions {
    /// A 15 by 15 board with 30 mines, centered, adaptive tile size, no
    /// padding, no safe start.
    fn default() -> (r: Self)
        ensures
            r.map_size == (15u16, 15u16),
            r.bomb_count == 30u16,
            r.position == (BoardPosition::Centered { offset: (Point3 { x: 0i64, y: 0i64, z: 0i64 }) }),
            r.tile_size == (TileSize::Adaptive { min: 10i64, max: 50i64 }),
            r.tile_padding == 0i64,
            r.safe_start == false,
            r.wf(),
    {
        BoardOptions {
            map_size: (15, 15),
            bomb_count: 30,
            position: BoardPosition::default(),
            tile_size: TileSize::default(),
            tile_padding: 0,
            safe_start: false,
        }
    }
}

} // verus!
