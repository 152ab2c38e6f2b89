use vstd::prelude::*;

use crate::board_options::resolve_board_position;
use crate::board_options::resolve_tile_size;
use crate::board_options::spec_resolve_board_position;
use crate::board_options::spec_resolve_tile_size;
use crate::board_options::BoardOptions;
use crate::bounds::spec_in_bounds;
use crate::bounds::Bounds2;
use crate::bounds::Point2;
use crate::coordinates::Coordinates;
use crate::tile_map::grid_bombs;
use crate::tile_map::TileMap;

verus! {

/// The interactive composition of a tile map, its pixel bounds in the
/// window, and the pixel size of one tile.
#[derive(Debug)]
pub struct Board {
    pub bounds: Bounds2,
    pub tile_size: i64,
    pub tile_map: TileMap,
}

/// The one configuration error: more mines requested than the grid has
/// cells.
#[derive(Debug, Clone, Copy, PartialEq, Eq, Structural)]
pub enum BoardError {
    MineCountExceedsCells,
}

impl Board {
    /// The grid has at least one row and column, the bounds cover exactly
    /// the grid at the stored tile size, and the tile map itself is
    /// well-formed.
    pub open spec fn wf(&self) -> bool {
        &&& self.tile_map.wf()
        &&& self.tile_map.spec_width() >= 1
        &&& self.tile_map.spec_height() >= 1
        &&& 1 <= self.tile_size <= 0x7fff_ffff
        &&& self.bounds.wf()
        &&& self.bounds.size.x == self.tile_size * self.tile_map.spec_width()
        &&& self.bounds.size.y == self.tile_size * self.tile_map.spec_height()
    }
}

/// A cell index held onto the grid: a quotient past the last row or column
/// lands on the last one, so a hit on the inclusive far edge of the bounds
/// still names an on-grid cell.
pub open spec fn spec_grid_clamp(q: int, dim: u16) -> int {
    if dim == 0 {
        0
    } else if q >= dim {
        dim - 1
    } else {
        q
    }
}

/// The cell `mouse_position` reports for a cursor at `mouse` in a window
/// of size `window`, both measured from the window's bottom-left corner:
/// nothing when the window-centered point falls outside the bounds, else
/// the point's offset from the board corner divided by the tile size, each
/// axis clamped onto the grid.
pub open spec fn spec_mouse_cell(b: Board, window: Point2, mouse: Point2) -> Option<Coordinates> {
    let cx = mouse.x - window.x / 2;
    let cy = mouse.y - window.y / 2;
    if spec_in_bounds(b.bounds, (Point2 { x: cx as i64, y: cy as i64 })) {
        let qx = (cx - b.bounds.position.x) / (b.tile_size as int);
        let qy = (cy - b.bounds.position.y) / (b.tile_size as int);
        Some(
            Coordinates {
                x: spec_grid_clamp(qx, b.tile_map.spec_width()) as u16,
                y: spec_grid_clamp(qy, b.tile_map.spec_height()) as u16,
            },
        )
    } else {
        None
    }
}

impl Board {
    /// Maps a cursor position, measured from the window's bottom-left
    /// corner, to the grid cell under it; a cursor outside the board maps
    /// to nothing. On a well-formed board every hit lands on-grid: the
    /// inclusive far edge of the bounds belongs to the last row and
    /// column.
    pub fn mouse_position(&self, window: Point2, mouse_pos: Point2) -> (r: Option<Coordinates>)
        requires
            self.bounds.wf(),
            1 <= self.tile_size <= 0x7fff_ffff,
            0 <= window.x <= 0x7fff_ffff,
            0 <= window.y <= 0x7fff_ffff,
            -0x7fff_ffff <= mouse_pos.x <= 0x7fff_ffff,
            -0x7fff_ffff <= mouse_pos.y <= 0x7fff_ffff,
        ensures
            r == spec_mouse_cell(*self, window, mouse_pos),
            (self.wf() && r is Some) ==> (r->0.x < self.tile_map.spec_width() && r->0.y
                < self.tile_map.spec_height()),
    {
        let cx: i64 = mouse_pos.x - ((window.x as u64 / 2) as i64);
        let cy: i64 = mouse_pos.y - ((window.y as u64 / 2) as i64);
        let centered = Point2 { x: cx, y: cy };
        if self.bounds.in_bounds(centered) {
            let bx: i64 = cx - self.bounds.position.x;
            let by: i64 = cy - self.bounds.position.y;
            let qx: u64 = (bx as u64) / (self.tile_size as u64);
            let qy: u64 = (by as u64) / (self.tile_size as u64);
            let w = self.tile_map.width();
            let h = self.tile_map.height();
            let x: u16 = if w == 0 {
                0
            } else if qx >= w as u64 {
                w - 1
            } else {
                qx as u16
            };
            let y: u16 = if h == 0 {
                0
            } else if qy >= h as u64 {
                h - 1
            } else {
                qy as u16
            };
            Some(Coordinates { x, y })
        } else {
            None
        }
    }
}

/// Builds the whole board for a window: rejects a mine count larger than
/// the grid, otherwise generates the tile map, resolves the tile pixel
/// size and the placement, and lays the bounds over exactly the grid.
pub fn create_board(options: &BoardOptions, window: Point2) -> (r: Result<Board, BoardError>)
    requires
        options.wf(),
        0 <= window.x <= 0x7fff_ffff,
        0 <= window.y <= 0x7fff_ffff,
    ensures
        r is Err <==> options.bomb_count as nat > options.map_size.0 as nat
            * options.map_size.1 as nat,
        r matches Ok(b) ==> {
            &&& b.wf()
            &&& b.tile_map.spec_width() == options.map_size.0
            &&& b.tile_map.spec_height() == options.map_size.1
            &&& b.tile_map.spec_bomb_count() == options.bomb_count
            &&& grid_bombs(b.tile_map@) == options.bomb_count as nat
            &&& b.tile_size == spec_resolve_tile_size(window, options.tile_size, options.map_size)
            &&& ({
                let p = spec_resolve_board_position(b.bounds.size, options.position);
                b.bounds.position.x == p.x && b.bounds.position.y == p.y
            })
        },
{
    let (width, height): (u16, u16) = (options.map_size.0, options.map_size.1);
    proof {
        assert(width as int * height as int <= 0xffff * 0xffff) by (nonlinear_arith)
            requires
                0 <= width as int <= 0xffff,
                0 <= height as int <= 0xffff,
        ;
    }
    let total: u32 = (width as u32) * (height as u32);
    if (options.bomb_count as u32) > total {
        return Err(BoardError::MineCountExceedsCells);
    }
    let mut tile_map = TileMap::new(height, width);
    tile_map.set_bombs(options.bomb_count);
    let tile_size = resolve_tile_size(window, &options.tile_size, options.map_size);
    proof {
        assert(tile_size as int * width as int <= 0x7fff_ffff * 0xffff && 0 <= tile_size as int
            * width as int) by (nonlinear_arith)
            requires
                1 <= tile_size as int <= 0x7fff_ffff,
                0 <= width as int <= 0xffff,
        ;
        assert(tile_size as int * height as int <= 0x7fff_ffff * 0xffff && 0 <= tile_size as int
            * height as int) by (nonlinear_arith)
            requires
                1 <= tile_size as int <= 0x7fff_ffff,
                0 <= height as int <= 0xffff,
        ;
    }
    let board_width: i64 = tile_size * (width as i64);
    let board_height: i64 = tile_size * (height as i64);
    let size = Point2 { x: board_width, y: board_height };
    let placement = resolve_board_position(size, &options.position);
    let bounds = Bounds2 { position: Point2 { x: placement.x, y: placement.y }, size };
    Ok(Board { bounds, tile_size, tile_map })
}

} // verus!
