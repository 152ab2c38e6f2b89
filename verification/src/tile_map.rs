use vstd::prelude::*;

use vstd::string::StringExecFns;

use crate::coordinates::Coordinates;
use crate::coordinates::wrap_add_delta;
use crate::text::decimal_string;
use crate::text::spec_decimal;
use crate::tile::spec_tile_text;
use crate::tile::Tile;

verus! {

/// The signed offsets of the eight cells around a cell, in the order the
/// neighborhood is walked.
pub open spec fn square_delta(i: int) -> (int, int) {
    if i == 0 {
        (-1, -1)
    } else if i == 1 {
        (0, -1)
    } else if i == 2 {
        (1, -1)
    } else if i == 3 {
        (-1, 0)
    } else if i == 4 {
        (1, 0)
    } else if i == 5 {
        (-1, 1)
    } else if i == 6 {
        (0, 1)
    } else {
        (1, 1)
    }
}

/// The grid is rectangular: `h` rows of `w` tiles each.
pub open spec fn grid_wf(g: Seq<Seq<Tile>>, w: int, h: int) -> bool {
    &&& g.len() == h
    &&& forall|y: int| 0 <= y < h ==> (#[trigger] g[y]).len() == w
}

/// A mine sits at `(x, y)`; any off-grid position counts as mine-free.
pub open spec fn spec_is_bomb_at(g: Seq<Seq<Tile>>, w: int, h: int, x: int, y: int) -> bool {
    &&& 0 <= x < w
    &&& 0 <= y < h
    &&& g[y][x] is Bomb
}

/// The number of mines among the first `i` of the eight neighbors of `(x, y)`.
pub open spec fn neighbor_bombs_upto(
    g: Seq<Seq<Tile>>,
    w: int,
    h: int,
    x: int,
    y: int,
    i: int,
) -> nat
    decreases i,
{
    if i <= 0 {
        0
    } else {
        neighbor_bombs_upto(g, w, h, x, y, i - 1) + if spec_is_bomb_at(
            g,
            w,
            h,
            x + square_delta(i - 1).0,
            y + square_delta(i - 1).1,
        ) {
            1nat
        } else {
            0nat
        }
    }
}

/// The number of mines among the (at most eight) on-grid neighbors of `(x, y)`.
pub open spec fn spec_neighbor_bombs(g: Seq<Seq<Tile>>, w: int, h: int, x: int, y: int) -> nat {
    neighbor_bombs_upto(g, w, h, x, y, 8)
}

/// What `bomb_count_at` reports for a position: zero for an off-grid
/// position and for a mine itself, else the count of adjacent mines.
pub open spec fn spec_bomb_count_at(g: Seq<Seq<Tile>>, w: int, h: int, x: int, y: int) -> nat {
    if !(0 <= x < w && 0 <= y < h) {
        0
    } else if g[y][x] is Bomb {
        0
    } else {
        spec_neighbor_bombs(g, w, h, x, y)
    }
}

/// The number of mines in the first `n` tiles of a row.
pub open spec fn row_bombs_upto(row: Seq<Tile>, n: int) -> nat
    decreases n,
{
    if n <= 0 {
        0
    } else {
        row_bombs_upto(row, n - 1) + if row[n - 1] is Bomb {
            1nat
        } else {
            0nat
        }
    }
}

/// The number of mines in a row.
pub open spec fn row_bombs(row: Seq<Tile>) -> nat {
    row_bombs_upto(row, row.len() as int)
}

/// The number of mines in the first `n` rows of the grid.
pub open spec fn grid_bombs_upto(g: Seq<Seq<Tile>>, n: int) -> nat
    decreases n,
{
    if n <= 0 {
        0
    } else {
        grid_bombs_upto(g, n - 1) + row_bombs(g[n - 1])
    }
}

/// The number of mines in the grid.
pub open spec fn grid_bombs(g: Seq<Seq<Tile>>) -> nat {
    grid_bombs_upto(g, g.len() as int)
}

/// The number of empty tiles in the first `n` tiles of a row.
pub open spec fn row_empties_upto(row: Seq<Tile>, n: int) -> nat
    decreases n,
{
    if n <= 0 {
        0
    } else {
        row_empties_upto(row, n - 1) + if row[n - 1] is Empty {
            1nat
        } else {
            0nat
        }
    }
}

/// The number of empty tiles in a row.
pub open spec fn row_empties(row: Seq<Tile>) -> nat {
    row_empties_upto(row, row.len() as int)
}

/// The number of empty tiles in the first `n` rows of the grid.
pub open spec fn grid_empties_upto(g: Seq<Seq<Tile>>, n: int) -> nat
    decreases n,
{
    if n <= 0 {
        0
    } else {
        grid_empties_upto(g, n - 1) + row_empties(g[n - 1])
    }
}

/// The number of empty tiles in the grid.
pub open spec fn grid_empties(g: Seq<Seq<Tile>>) -> nat {
    grid_empties_upto(g, g.len() as int)
}

/// Row-major position of a cell among the empty cells: all empties in
/// earlier rows plus the empties earlier in its own row.
pub open spec fn empties_before(g: Seq<Seq<Tile>>, x: int, y: int) -> nat {
    grid_empties_upto(g, y) + row_empties_upto(g[y], x)
}

/// Every on-grid cell is either a mine or empty: the state of the grid
/// between mine placement and neighbor numbering.
pub open spec fn bombs_or_empty(g: Seq<Seq<Tile>>, w: int, h: int) -> bool {
    forall|x: int, y: int|
        0 <= x < w && 0 <= y < h ==> ((#[trigger] g[y][x]) is Bomb || g[y][x] is Empty)
}

/// Two grids carry mines at exactly the same on-grid positions.
pub open spec fn mines_eq(a: Seq<Seq<Tile>>, b: Seq<Seq<Tile>>, w: int, h: int) -> bool {
    forall|x: int, y: int|
        #![trigger a[y][x]]
        #![trigger b[y][x]]
        0 <= x < w && 0 <= y < h ==> ((a[y][x] is Bomb) <==> (b[y][x] is Bomb))
}

/// What the numbering pass leaves in a non-mine cell: the neighbor count
/// when it is positive, else an empty tile.
pub open spec fn spec_numbered_tile(g: Seq<Seq<Tile>>, w: int, h: int, x: int, y: int) -> Tile {
    if spec_neighbor_bombs(g, w, h, x, y) > 0 {
        Tile::BombNeighbor(spec_neighbor_bombs(g, w, h, x, y) as u8)
    } else {
        Tile::Empty
    }
}

/// The 2D grid of tiles plus mine bookkeeping. Built empty, filled by one
/// generation pass, and static afterwards.
#[derive(Debug)]
pub struct TileMap {
    bomb_count: u16,
    height: u16,
    width: u16,
    map: Vec<Vec<Tile>>,
}

impl View for TileMap {
    type V = Seq<Seq<Tile>>;

    closed spec fn view(&self) -> Seq<Seq<Tile>> {
        self.map@.map_values(|row: Vec<Tile>| row@)
    }
}

impl TileMap {
    /// The stated width of the grid.
    pub closed spec fn spec_width(&self) -> u16 {
        self.width
    }

    /// The stated height of the grid.
    pub closed spec fn spec_height(&self) -> u16 {
        self.height
    }

    /// The stored number of mines.
    pub closed spec fn spec_bomb_count(&self) -> u16 {
        self.bomb_count
    }

    /// The grid is rectangular with the stated dimensions.
    pub open spec fn shape_wf(&self) -> bool {
        grid_wf(self@, self.spec_width() as int, self.spec_height() as int)
    }

    /// Well-formed: rectangular, and the stored mine count matches the
    /// mines actually on the grid.
    pub open spec fn wf(&self) -> bool {
        &&& self.shape_wf()
        &&& self.spec_bomb_count() as nat == grid_bombs(self@)
    }

    /// Every cell of the grid is empty.
    pub open spec fn all_empty(&self) -> bool {
        forall|x: int, y: int|
            0 <= x < self.spec_width() && 0 <= y < self.spec_height() ==> (#[trigger] self@[y][x])
                is Empty
    }

    /// A fresh grid of the given size with every cell empty and no mine.
    pub fn new(height: u16, width: u16) -> (r: TileMap)
        ensures
            r.wf(),
            r.spec_height() == height,
            r.spec_width() == width,
            r.spec_bomb_count() == 0,
            r.all_empty(),
    {
        let mut map: Vec<Vec<Tile>> = Vec::new();
        let mut y: u16 = 0;
        while y < height
            invariant
                y <= height,
                map@.len() == y,
                forall|i: int| 0 <= i < y ==> (#[trigger] map@[i])@.len() == width,
                forall|i: int, j: int|
                    0 <= i < y && 0 <= j < width ==> (#[trigger] map@[i]@[j]) is Empty,
            decreases height - y,
        {
            let mut row: Vec<Tile> = Vec::new();
            let mut x: u16 = 0;
            while x < width
                invariant
                    x <= width,
                    row@.len() == x,
                    forall|j: int| 0 <= j < x ==> (#[trigger] row@[j]) is Empty,
                decreases width - x,
            {
                row.push(Tile::Empty);
                x += 1;
            }
            map.push(row);
            y += 1;
        }
        let r = TileMap { bomb_count: 0, height, width, map };
        proof {
            lemma_all_empty_bombs_zero(r@, width as int, height as int);
        }
        r
    }

    /// The grid's height in rows.
    pub fn height(&self) -> (r: u16)
        ensures
            r == self.spec_height(),
    {
        self.height
    }

    /// The grid's width in columns.
    pub fn width(&self) -> (r: u16)
        ensures
            r == self.spec_width(),
    {
        self.width
    }

    /// The stored number of mines.
    pub fn bomb_count(&self) -> (r: u16)
        ensures
            r == self.spec_bomb_count(),
    {
        self.bomb_count
    }

    /// Read access to the grid, row by row. This explicit accessor replaces
    /// transparent container aliasing, so the grid can only change through
    /// methods that keep the invariants.
    pub fn rows(&self) -> (r: &Vec<Vec<Tile>>)
        ensures
            r@.len() == self@.len(),
            forall|y: int| 0 <= y < self@.len() ==> (#[trigger] r@[y])@ == self@[y],
    {
        &self.map
    }

    /// The eight positions around `position`, in a fixed order. Off-grid
    /// neighbors wrap to huge coordinates, which later bounds checks reject.
    pub fn safe_square_at(&self, position: Coordinates) -> (r: Vec<Coordinates>)
        ensures
            r@.len() == 8,
            forall|i: int|
                0 <= i < 8 ==> (#[trigger] r@[i]).x == wrap_add_delta(
                    position.x as int,
                    square_delta(i).0,
                ) && r@[i].y == wrap_add_delta(position.y as int, square_delta(i).1),
    {
        let mut v: Vec<Coordinates> = Vec::new();
        v.push(position.add((-1, -1)));
        v.push(position.add((0, -1)));
        v.push(position.add((1, -1)));
        v.push(position.add((-1, 0)));
        v.push(position.add((1, 0)));
        v.push(position.add((-1, 1)));
        v.push(position.add((0, 1)));
        v.push(position.add((1, 1)));
        v
    }

    /// Whether a mine sits at `position`; any off-grid position, including
    /// one that wrapped around, reports no mine.
    pub fn is_bombs_at(&self, position: Coordinates) -> (r: bool)
        requires
            self.shape_wf(),
        ensures
            r == spec_is_bomb_at(
                self@,
                self.spec_width() as int,
                self.spec_height() as int,
                position.x as int,
                position.y as int,
            ),
    {
        if position.x >= self.width || position.y >= self.height {
            return false;
        }
        proof {
            assert(self.map@.len() == self@.len());
            assert(self.map@[position.y as int]@ == self@[position.y as int]);
        }
        self.map[position.y as usize][position.x as usize].is_bomb()
    }

    /// The number of mines adjacent to `position`: zero for a mine itself
    /// and for any off-grid position, else the count over the eight
    /// neighbors, where off-grid neighbors contribute nothing.
    pub fn bomb_count_at(&self, position: Coordinates) -> (r: u8)
        requires
            self.shape_wf(),
        ensures
            r as nat == spec_bomb_count_at(
                self@,
                self.spec_width() as int,
                self.spec_height() as int,
                position.x as int,
                position.y as int,
            ),
            r <= 8,
    {
        if position.x >= self.width || position.y >= self.height {
            return 0;
        }
        if self.is_bombs_at(position) {
            return 0;
        }
        let square = self.safe_square_at(position);
        let ghost w = self.spec_width() as int;
        let ghost h = self.spec_height() as int;
        let ghost x = position.x as int;
        let ghost y = position.y as int;
        let mut count: u8 = 0;
        let mut i: usize = 0;
        while i < 8
            invariant
                self.shape_wf(),
                0 <= x < w <= 0xffff,
                0 <= y < h <= 0xffff,
                w == self.spec_width() as int,
                h == self.spec_height() as int,
                x == position.x as int,
                y == position.y as int,
                square@.len() == 8,
                forall|k: int|
                    0 <= k < 8 ==> (#[trigger] square@[k]).x == wrap_add_delta(
                        x,
                        square_delta(k).0,
                    ) && square@[k].y == wrap_add_delta(y, square_delta(k).1),
                i <= 8,
                count as nat == neighbor_bombs_upto(self@, w, h, x, y, i as int),
                count <= i,
            decreases 8 - i,
        {
            let nb = square[i];
            proof {
                lemma_wrap_neighbor_eq(self@, w, h, x, y, square_delta(i as int).0, square_delta(
                    i as int,
                ).1);
            }
            if self.is_bombs_at(nb) {
                count += 1;
            }
            i += 1;
        }
        count
    }
}

impl TileMap {
    /// Overwrites one cell.
    fn set_tile(&mut self, x: u16, y: u16, t: Tile)
        requires
            old(self).shape_wf(),
            x < old(self).spec_width(),
            y < old(self).spec_height(),
        ensures
            final(self)@ == old(self)@.update(y as int, old(self)@[y as int].update(x as int, t)),
            final(self).spec_width() == old(self).spec_width(),
            final(self).spec_height() == old(self).spec_height(),
            final(self).spec_bomb_count() == old(self).spec_bomb_count(),
            final(self).shape_wf(),
    {
        proof {
            assert(self.map@.len() == self@.len());
            assert(self.map@[y as int]@ == self@[y as int]);
        }
        self.map[y as usize][x as usize] = t;
        proof {
            assert(self@ =~~= old(self)@.update(
                y as int,
                old(self)@[y as int].update(x as int, t),
            ));
        }
    }

    /// Replaces one row.
    fn set_row(&mut self, y: u16, row: Vec<Tile>)
        requires
            old(self).shape_wf(),
            y < old(self).spec_height(),
            row@.len() == old(self).spec_width(),
        ensures
            final(self)@ == old(self)@.update(y as int, row@),
            final(self).spec_width() == old(self).spec_width(),
            final(self).spec_height() == old(self).spec_height(),
            final(self).spec_bomb_count() == old(self).spec_bomb_count(),
            final(self).shape_wf(),
    {
        proof {
            assert(self.map@.len() == self@.len());
        }
        self.map[y as usize] = row;
        proof {
            assert(self@ =~~= old(self)@.update(y as int, row@));
        }
    }

    /// The on-grid cell holding the `k`-th empty tile in row-major order.
    fn kth_empty(&self, k: u32) -> (r: Coordinates)
        requires
            self.shape_wf(),
            (k as nat) < grid_empties(self@),
        ensures
            r.x < self.spec_width(),
            r.y < self.spec_height(),
            self@[r.y as int][r.x as int] is Empty,
            empties_before(self@, r.x as int, r.y as int) == k as nat,
    {
        let w = self.width;
        let h = self.height;
        let mut y: u16 = 0;
        let mut c: u32 = 0;
        while y < h
            invariant
                self.shape_wf(),
                w == self.spec_width(),
                h == self.spec_height(),
                (k as nat) < grid_empties(self@),
                y <= h,
                c as nat == grid_empties_upto(self@, y as int),
                c <= k,
            decreases h - y,
        {
            let mut x: u16 = 0;
            while x < w
                invariant
                    self.shape_wf(),
                    w == self.spec_width(),
                    h == self.spec_height(),
                    (k as nat) < grid_empties(self@),
                    y < h,
                    x <= w,
                    c as nat == empties_before(self@, x as int, y as int),
                    c <= k,
                decreases w - x,
            {
                proof {
                    assert(self.map@[y as int]@ == self@[y as int]);
                }
                let t = self.map[y as usize][x as usize];
                if matches!(t, Tile::Empty) {
                    if c == k {
                        return Coordinates { x, y };
                    }
                    c += 1;
                }
                x += 1;
            }
            y += 1;
        }
        proof {
            assert(c as nat == grid_empties(self@));
            assert(false);
        }
        vstd::pervasive::unreached()
    }
}

/// The tile the numbering pass writes at an on-grid `(x, y)`, reading mine
/// positions from `g`: mines stay, every other cell gets its number or
/// stays empty.
pub open spec fn spec_phase2_tile(g: Seq<Seq<Tile>>, w: int, h: int, x: int, y: int) -> Tile {
    if g[y][x] is Bomb {
        Tile::Bomb
    } else {
        spec_numbered_tile(g, w, h, x, y)
    }
}

impl TileMap {
    /// Places exactly `bomb_num` mines on a fresh, fully empty grid, at
    /// cells drawn from the thread-local random generator, then numbers
    /// every remaining cell with its count of adjacent mines; a cell with
    /// no mined neighbor stays empty.
    pub fn set_bombs(&mut self, bomb_num: u16)
        requires
            old(self).wf(),
            old(self).all_empty(),
            bomb_num as nat <= old(self).spec_width() as nat * old(self).spec_height() as nat,
        ensures
            final(self).wf(),
            final(self).spec_width() == old(self).spec_width(),
            final(self).spec_height() == old(self).spec_height(),
            final(self).spec_bomb_count() == bomb_num,
            grid_bombs(final(self)@) == bomb_num as nat,
            forall|x: int, y: int|
                0 <= x < final(self).spec_width() && 0 <= y < final(self).spec_height() && !((
                #[trigger] final(self)@[y][x]) is Bomb) ==> final(self)@[y][x] == spec_numbered_tile(
                    final(self)@,
                    final(self).spec_width() as int,
                    final(self).spec_height() as int,
                    x,
                    y,
                ),
    {
        let w = self.width;
        let h = self.height;
        let ghost w_i = w as int;
        let ghost h_i = h as int;
        proof {
            lemma_all_empty_bombs_zero(self@, w_i, h_i);
        }
        let mut rng = crate::rng::fresh_rng();
        let mut remaining: u16 = bomb_num;
        while remaining > 0
            invariant
                self.shape_wf(),
                self.spec_width() == w,
                self.spec_height() == h,
                w_i == w as int,
                h_i == h as int,
                bombs_or_empty(self@, w_i, h_i),
                remaining <= bomb_num,
                bomb_num as nat <= w as nat * h as nat,
                grid_bombs(self@) == (bomb_num - remaining) as nat,
            decreases remaining,
        {
            proof {
                lemma_grid_bombs_plus_empties(self@, w_i, h_i);
                assert(w_i * h_i == h_i * w_i) by (nonlinear_arith);
                assert(w_i * h_i <= 0xffff * 0xffff) by (nonlinear_arith)
                    requires
                        0 <= w_i <= 0xffff,
                        0 <= h_i <= 0xffff,
                ;
            }
            let total: u32 = (w as u32) * (h as u32);
            let placed: u32 = (bomb_num - remaining) as u32;
            let empties: u32 = total - placed;
            proof {
                assert(empties as nat == grid_empties(self@));
            }
            let k = crate::rng::rng_below(&mut rng, empties);
            let pos = self.kth_empty(k);
            let ghost g_before = self@;
            self.set_tile(pos.x, pos.y, Tile::Bomb);
            proof {
                lemma_grid_bombs_place(g_before, pos.x as int, pos.y as int);
                assert forall|x: int, y: int| 0 <= x < w_i && 0 <= y < h_i implies ((
                #[trigger] self@[y][x]) is Bomb || self@[y][x] is Empty) by {
                    if !(y == pos.y as int && x == pos.x as int) {
                        assert(self@[y][x] == g_before[y][x]);
                    }
                }
            }
            remaining -= 1;
        }
        let ghost g1 = self@;
        let mut y: u16 = 0;
        while y < h
            invariant
                self.shape_wf(),
                self.spec_width() == w,
                self.spec_height() == h,
                w_i == w as int,
                h_i == h as int,
                y <= h,
                grid_wf(g1, w_i, h_i),
                grid_bombs(g1) == bomb_num as nat,
                mines_eq(self@, g1, w_i, h_i),
                forall|yy: int| y <= yy < h ==> (#[trigger] self@[yy]) == g1[yy],
                forall|xx: int, yy: int|
                    0 <= xx < w_i && 0 <= yy < y ==> (#[trigger] self@[yy][xx]) == spec_phase2_tile(
                        g1,
                        w_i,
                        h_i,
                        xx,
                        yy,
                    ),
            decreases h - y,
        {
            let mut newrow: Vec<Tile> = Vec::new();
            let mut x: u16 = 0;
            while x < w
                invariant
                    self.shape_wf(),
                    self.spec_width() == w,
                    self.spec_height() == h,
                    w_i == w as int,
                    h_i == h as int,
                    y < h,
                    x <= w,
                    grid_wf(g1, w_i, h_i),
                    mines_eq(self@, g1, w_i, h_i),
                    forall|yy: int| y <= yy < h ==> (#[trigger] self@[yy]) == g1[yy],
                    newrow@.len() == x,
                    forall|xx: int|
                        0 <= xx < x ==> (#[trigger] newrow@[xx]) == spec_phase2_tile(
                            g1,
                            w_i,
                            h_i,
                            xx,
                            y as int,
                        ),
                decreases w - x,
            {
                let pos = Coordinates { x, y };
                let t: Tile;
                if self.is_bombs_at(pos) {
                    t = Tile::Bomb;
                } else {
                    let n = self.bomb_count_at(pos);
                    t = if n == 0 {
                        Tile::Empty
                    } else {
                        Tile::BombNeighbor(n)
                    };
                }
                proof {
                    lemma_neighbor_bombs_mines_eq(self@, g1, w_i, h_i, x as int, y as int, 8);
                    assert((self@[y as int][x as int] is Bomb) <==> (g1[y as int][x as int]
                        is Bomb));
                    assert(t == spec_phase2_tile(g1, w_i, h_i, x as int, y as int));
                }
                newrow.push(t);
                x += 1;
            }
            let ghost nr = newrow@;
            let ghost g_before = self@;
            self.set_row(y, newrow);
            proof {
                assert forall|yy: int| y + 1 <= yy < h implies (#[trigger] self@[yy]) == g1[yy] by {
                    assert(self@[yy] == g_before[yy]);
                }
                assert forall|xx: int, yy: int|
                    0 <= xx < w_i && 0 <= yy < y + 1 implies (#[trigger] self@[yy][xx])
                    == spec_phase2_tile(g1, w_i, h_i, xx, yy) by {
                    if yy == y as int {
                        assert(self@[yy] == nr);
                    } else {
                        assert(self@[yy] == g_before[yy]);
                        assert(g_before[yy][xx] == spec_phase2_tile(g1, w_i, h_i, xx, yy));
                    }
                }
                assert forall|xx: int, yy: int|
                    #![trigger self@[yy][xx]]
                    #![trigger g1[yy][xx]]
                    0 <= xx < w_i && 0 <= yy < h_i implies ((self@[yy][xx] is Bomb) <==> (g1[yy][xx]
                    is Bomb)) by {
                    if yy <= y as int {
                        assert(self@[yy][xx] == spec_phase2_tile(g1, w_i, h_i, xx, yy));
                    } else {
                        assert(self@[yy] == g1[yy]);
                    }
                }
            }
            y += 1;
        }
        self.bomb_count = bomb_num;
        proof {
            lemma_grid_bombs_upto_mines_eq(self@, g1, w_i, h_i, h_i);
            assert(grid_bombs(self@) == grid_bombs_upto(self@, h_i));
            assert(grid_bombs(g1) == grid_bombs_upto(g1, h_i));
            assert forall|x: int, y: int|
                0 <= x < w_i && 0 <= y < h_i && !((#[trigger] self@[y][x]) is Bomb) implies self@[y][x]
                == spec_numbered_tile(self@, w_i, h_i, x, y) by {
                assert(self@[y][x] == spec_phase2_tile(g1, w_i, h_i, x, y));
                assert(!(g1[y][x] is Bomb));
                lemma_neighbor_bombs_mines_eq(self@, g1, w_i, h_i, x, y, 8);
            }
        }
    }
}

/// Off-grid positions get the safe defaults: no position with `x >= w` or
/// `y >= h` (or below zero) ever carries a mine, and its reported neighbor
/// count is zero, so no query indexes outside the grid.
pub proof fn lemma_off_grid_defaults(g: Seq<Seq<Tile>>, w: int, h: int, x: int, y: int)
    requires
        !(0 <= x < w) || !(0 <= y < h),
    ensures
        !spec_is_bomb_at(g, w, h, x, y),
        spec_bomb_count_at(g, w, h, x, y) == 0,
{
}

/// Iterating the grid twice without mutation yields identical tile
/// sequences: every walk over `rows` reads off exactly the map's view, so
/// any two such reads agree.
pub proof fn lemma_reiterate_identical(m: TileMap, first: Seq<Seq<Tile>>, second: Seq<Seq<Tile>>)
    requires
        first == m@,
        second == m@,
    ensures
        first == second,
{
}

/// `-` repeated `n` times.
pub open spec fn spec_dashes(n: int) -> Seq<char>
    decreases n,
{
    if n <= 0 {
        Seq::empty()
    } else {
        spec_dashes(n - 1).push('-')
    }
}

/// The texts of the first `n` tiles of a row, in order.
pub open spec fn spec_row_text_upto(row: Seq<Tile>, n: int) -> Seq<char>
    decreases n,
{
    if n <= 0 {
        Seq::empty()
    } else {
        spec_row_text_upto(row, n - 1) + spec_tile_text(row[n - 1])
    }
}

/// One rendered grid row: the tiles' texts between `|` borders, ended by a
/// newline.
pub open spec fn spec_row_line(row: Seq<Tile>) -> Seq<char> {
    seq!['|'] + spec_row_text_upto(row, row.len() as int) + seq!['|', '\n']
}

/// The rendered lines of the first `n` rows of the grid.
pub open spec fn spec_rows_text_upto(g: Seq<Seq<Tile>>, n: int) -> Seq<char>
    decreases n,
{
    if n <= 0 {
        Seq::empty()
    } else {
        spec_rows_text_upto(g, n - 1) + spec_row_line(g[n - 1])
    }
}

/// The full console rendering of a grid: a header naming the dimensions
/// and the mine count, then the rows between dashed border lines.
pub open spec fn spec_console_map(g: Seq<Seq<Tile>>, w: int, h: int, bombs: int) -> Seq<char> {
    "Map ("@ + spec_decimal(w) + ", "@ + spec_decimal(h) + ") with "@ + spec_decimal(bombs)
        + " bombs:\n"@ + spec_dashes(w + 2) + "\n"@ + spec_rows_text_upto(g, h) + spec_dashes(w + 2)
}

/// A border line of `n` dashes.
fn dash_line(n: u32) -> (r: String)
    ensures
        r@ == spec_dashes(n as int),
{
    let mut s = String::new();
    proof {
        assert(s@ =~= spec_dashes(0));
    }
    let mut i: u32 = 0;
    while i < n
        invariant
            i <= n,
            s@ == spec_dashes(i as int),
        decreases n - i,
    {
        s.append("-");
        proof {
            reveal_strlit("-");
            assert(s@ =~= spec_dashes(i + 1));
        }
        i += 1;
    }
    s
}

impl TileMap {
    /// A console rendering of the whole map: dimensions and mine count on
    /// the first line, then every row's tiles between borders.
    pub fn console_output(&self) -> (r: String)
        requires
            self.shape_wf(),
        ensures
            r@ == spec_console_map(
                self@,
                self.spec_width() as int,
                self.spec_height() as int,
                self.spec_bomb_count() as int,
            ),
    {
        let w = self.width;
        let h = self.height;
        let ghost w_i = w as int;
        let ghost h_i = h as int;
        let mut s = "Map (".to_owned();
        s.append(decimal_string(self.width).as_str());
        s.append(", ");
        s.append(decimal_string(self.height).as_str());
        s.append(") with ");
        s.append(decimal_string(self.bomb_count).as_str());
        s.append(" bombs:\n");
        let dashes = dash_line(w as u32 + 2);
        s.append(dashes.as_str());
        s.append("\n");
        let ghost base = s@;
        proof {
            assert(s@ =~= base + spec_rows_text_upto(self@, 0));
        }
        let mut y: u16 = 0;
        while y < h
            invariant
                self.shape_wf(),
                w == self.spec_width(),
                h == self.spec_height(),
                w_i == w as int,
                h_i == h as int,
                y <= h,
                s@ == base + spec_rows_text_upto(self@, y as int),
            decreases h - y,
        {
            s.append("|");
            proof {
                reveal_strlit("|");
                assert(s@ =~= base + spec_rows_text_upto(self@, y as int) + seq!['|']
                    + spec_row_text_upto(self@[y as int], 0));
            }
            let mut x: u16 = 0;
            while x < w
                invariant
                    self.shape_wf(),
                    w == self.spec_width(),
                    h == self.spec_height(),
                    w_i == w as int,
                    h_i == h as int,
                    y < h,
                    x <= w,
                    s@ == base + spec_rows_text_upto(self@, y as int) + seq!['|']
                        + spec_row_text_upto(self@[y as int], x as int),
                decreases w - x,
            {
                proof {
                    assert(self.map@[y as int]@ == self@[y as int]);
                }
                let t = self.map[y as usize][x as usize];
                let ts = t.console_output();
                s.append(ts.as_str());
                proof {
                    assert(s@ =~= base + spec_rows_text_upto(self@, y as int) + seq!['|']
                        + spec_row_text_upto(self@[y as int], x + 1));
                }
                x += 1;
            }
            s.append("|\n");
            proof {
                reveal_strlit("|\n");
                assert(self@[y as int].len() == w_i);
                assert("|\n"@ =~= seq!['|', '\n']);
                assert(s@ =~= base + spec_rows_text_upto(self@, y + 1));
            }
            y += 1;
        }
        let tail = dash_line(w as u32 + 2);
        s.append(tail.as_str());
        proof {
            assert(s@ =~= spec_console_map(self@, w_i, h_i, self.spec_bomb_count() as int));
        }
        s
    }
}

/// Updating one tile of a row changes the prefix mine counts only where
/// the prefix covers the updated position.
proof fn lemma_row_bombs_upto_update(row: Seq<Tile>, x: int, t: Tile, n: int)
    requires
        0 <= x < row.len(),
        n <= row.len(),
    ensures
        row_bombs_upto(row.update(x, t), n) as int == row_bombs_upto(row, n) as int + if x < n {
            (if t is Bomb {
                1int
            } else {
                0int
            }) - (if row[x] is Bomb {
                1int
            } else {
                0int
            })
        } else {
            0int
        },
    decreases n,
{
    if n > 0 {
        lemma_row_bombs_upto_update(row, x, t, n - 1);
    }
}

/// Replacing one row changes the prefix mine counts by the difference of
/// the two rows' counts, where the prefix covers the replaced row.
proof fn lemma_grid_bombs_upto_update(g: Seq<Seq<Tile>>, y: int, r2: Seq<Tile>, n: int)
    requires
        0 <= y < g.len(),
        n <= g.len(),
    ensures
        grid_bombs_upto(g.update(y, r2), n) as int == grid_bombs_upto(g, n) as int + if y < n {
            row_bombs(r2) as int - row_bombs(g[y]) as int
        } else {
            0int
        },
    decreases n,
{
    if n > 0 {
        lemma_grid_bombs_upto_update(g, y, r2, n - 1);
    }
}

/// Setting a mine into an empty cell raises the grid's mine count by one.
proof fn lemma_grid_bombs_place(g: Seq<Seq<Tile>>, x: int, y: int)
    requires
        0 <= y < g.len(),
        0 <= x < g[y].len(),
        g[y][x] is Empty,
    ensures
        grid_bombs(g.update(y, g[y].update(x, Tile::Bomb))) == grid_bombs(g) + 1,
{
    let r2 = g[y].update(x, Tile::Bomb);
    lemma_row_bombs_upto_update(g[y], x, Tile::Bomb, g[y].len() as int);
    assert(row_bombs(r2) as int == row_bombs(g[y]) as int + 1);
    lemma_grid_bombs_upto_update(g, y, r2, g.len() as int);
}

/// In a grid of mines and empties every tile counts towards exactly one of
/// the two tallies, so over a full row they sum to the row's length.
proof fn lemma_row_bombs_plus_empties(row: Seq<Tile>, n: int)
    requires
        0 <= n <= row.len(),
        forall|j: int| 0 <= j < row.len() ==> ((#[trigger] row[j]) is Bomb || row[j] is Empty),
    ensures
        row_bombs_upto(row, n) + row_empties_upto(row, n) == n,
    decreases n,
{
    if n > 0 {
        lemma_row_bombs_plus_empties(row, n - 1);
    }
}

/// Over the first `n` rows of a mines-and-empties grid, the mine and empty
/// tallies sum to the number of cells.
proof fn lemma_grid_bombs_plus_empties_upto(g: Seq<Seq<Tile>>, w: int, h: int, n: int)
    requires
        grid_wf(g, w, h),
        bombs_or_empty(g, w, h),
        0 <= n <= h,
    ensures
        grid_bombs_upto(g, n) + grid_empties_upto(g, n) == n * w,
    decreases n,
{
    if n > 0 {
        lemma_grid_bombs_plus_empties_upto(g, w, h, n - 1);
        assert forall|j: int| 0 <= j < g[n - 1].len() implies ((#[trigger] g[n - 1][j]) is Bomb
            || g[n - 1][j] is Empty) by {
            assert(g[n - 1][j] is Bomb || g[n - 1][j] is Empty);
        }
        assert(g[n - 1].len() == w);
        lemma_row_bombs_plus_empties(g[n - 1], g[n - 1].len() as int);
        assert(row_bombs(g[n - 1]) + row_empties(g[n - 1]) == w);
        assert(grid_bombs_upto(g, n) == grid_bombs_upto(g, n - 1) + row_bombs(g[n - 1]));
        assert(grid_empties_upto(g, n) == grid_empties_upto(g, n - 1) + row_empties(g[n - 1]));
        assert(grid_bombs_upto(g, n - 1) + grid_empties_upto(g, n - 1) == (n - 1) * w);
        assert((n - 1) * w + w == n * w) by (nonlinear_arith);
    } else {
        assert(n == 0);
        assert(n * w == 0) by (nonlinear_arith)
            requires n == 0;
    }
}

/// In a rectangular grid of mines and empties, mines and empties together
/// fill the whole grid.
proof fn lemma_grid_bombs_plus_empties(g: Seq<Seq<Tile>>, w: int, h: int)
    requires
        grid_wf(g, w, h),
        bombs_or_empty(g, w, h),
    ensures
        grid_bombs(g) + grid_empties(g) == h * w,
{
    lemma_grid_bombs_plus_empties_upto(g, w, h, h);
}

/// Rows with mines at the same positions have the same prefix mine counts.
proof fn lemma_row_bombs_upto_mines_eq(a: Seq<Tile>, b: Seq<Tile>, n: int)
    requires
        forall|j: int| 0 <= j < n ==> (((#[trigger] a[j]) is Bomb) <==> ((#[trigger] b[j]) is Bomb)),
    ensures
        row_bombs_upto(a, n) == row_bombs_upto(b, n),
    decreases n,
{
    if n > 0 {
        lemma_row_bombs_upto_mines_eq(a, b, n - 1);
    }
}

/// Grids with mines at the same on-grid positions hold the same number of
/// mines.
proof fn lemma_grid_bombs_upto_mines_eq(a: Seq<Seq<Tile>>, b: Seq<Seq<Tile>>, w: int, h: int, n: int)
    requires
        grid_wf(a, w, h),
        grid_wf(b, w, h),
        mines_eq(a, b, w, h),
        0 <= n <= h,
    ensures
        grid_bombs_upto(a, n) == grid_bombs_upto(b, n),
    decreases n,
{
    if n > 0 {
        lemma_grid_bombs_upto_mines_eq(a, b, w, h, n - 1);
        assert forall|j: int| 0 <= j < w implies (((#[trigger] a[n - 1][j]) is Bomb) <==> ((
        #[trigger] b[n - 1][j]) is Bomb)) by {
            assert((a[n - 1][j] is Bomb) <==> (b[n - 1][j] is Bomb));
        }
        lemma_row_bombs_upto_mines_eq(a[n - 1], b[n - 1], w);
        assert(row_bombs(a[n - 1]) == row_bombs_upto(a[n - 1], w));
        assert(row_bombs(b[n - 1]) == row_bombs_upto(b[n - 1], w));
    }
}

/// Grids with mines at the same on-grid positions give every cell the same
/// partial neighbor-mine counts.
proof fn lemma_neighbor_bombs_mines_eq(
    a: Seq<Seq<Tile>>,
    b: Seq<Seq<Tile>>,
    w: int,
    h: int,
    x: int,
    y: int,
    i: int,
)
    requires
        mines_eq(a, b, w, h),
        0 <= i <= 8,
    ensures
        neighbor_bombs_upto(a, w, h, x, y, i) == neighbor_bombs_upto(b, w, h, x, y, i),
    decreases i,
{
    if i > 0 {
        lemma_neighbor_bombs_mines_eq(a, b, w, h, x, y, i - 1);
        let nx = x + square_delta(i - 1).0;
        let ny = y + square_delta(i - 1).1;
        if 0 <= nx < w && 0 <= ny < h {
            assert((a[ny][nx] is Bomb) <==> (b[ny][nx] is Bomb));
        }
    }
}

/// Wrapping a neighbor offset of an on-grid cell either leaves the
/// coordinate unchanged or sends it off-grid, so the mine test agrees with
/// the unwrapped offset.
proof fn lemma_wrap_neighbor_eq(g: Seq<Seq<Tile>>, w: int, h: int, x: int, y: int, dx: int, dy: int)
    requires
        0 <= x < w <= 0xffff,
        0 <= y < h <= 0xffff,
        -1 <= dx <= 1,
        -1 <= dy <= 1,
    ensures
        spec_is_bomb_at(g, w, h, wrap_add_delta(x, dx), wrap_add_delta(y, dy)) == spec_is_bomb_at(
            g,
            w,
            h,
            x + dx,
            y + dy,
        ),
{
}

/// A fully empty rectangular grid holds no mine.
proof fn lemma_all_empty_bombs_zero(g: Seq<Seq<Tile>>, w: int, h: int)
    requires
        grid_wf(g, w, h),
        forall|x: int, y: int| 0 <= x < w && 0 <= y < h ==> (#[trigger] g[y][x]) is Empty,
    ensures
        grid_bombs(g) == 0,
{
    lemma_grid_bombs_upto_empty(g, w, h, h);
}

proof fn lemma_row_bombs_upto_empty(row: Seq<Tile>, n: int)
    requires
        forall|j: int| 0 <= j < n ==> !((#[trigger] row[j]) is Bomb),
    ensures
        row_bombs_upto(row, n) == 0,
    decreases n,
{
    if n > 0 {
        lemma_row_bombs_upto_empty(row, n - 1);
    }
}

proof fn lemma_grid_bombs_upto_empty(g: Seq<Seq<Tile>>, w: int, h: int, n: int)
    requires
        grid_wf(g, w, h),
        n <= h,
        forall|x: int, y: int| 0 <= x < w && 0 <= y < h ==> (#[trigger] g[y][x]) is Empty,
    ensures
        grid_bombs_upto(g, n) == 0,
    decreases n,
{
    if n > 0 {
        lemma_grid_bombs_upto_empty(g, w, h, n - 1);
        assert forall|j: int| 0 <= j < g[n - 1].len() implies !((#[trigger] g[n - 1][j]) is Bomb) by {
            assert(g[n - 1][j] is Empty);
        }
        lemma_row_bombs_upto_empty(g[n - 1], g[n - 1].len() as int);
    }
}

} // verus!
