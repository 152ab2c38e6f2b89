use board_plugin::coordinates::Coordinates;
use board_plugin::text::decimal_string;
use board_plugin::tile::Tile;
use board_plugin::tile_map::TileMap;

#[test]
fn tile_it_works() {
    let tile = Tile::BombNeighbor(4);

    println!("{}", tile.console_output());
}

#[test]
fn is_bomb_only_for_mines() {
    assert!(Tile::Bomb.is_bomb());
    assert!(!Tile::Empty.is_bomb());
    assert!(!Tile::BombNeighbor(1).is_bomb());
}

#[test]
fn tile_console_output_text() {
    assert_eq!(Tile::Bomb.console_output(), "*");
    assert_eq!(Tile::Empty.console_output(), " ");
    assert_eq!(Tile::BombNeighbor(4).console_output(), "4");
    assert_eq!(Tile::BombNeighbor(12).console_output(), "12");
}

#[test]
fn decimal_string_writes_digits() {
    assert_eq!(decimal_string(0), "0");
    assert_eq!(decimal_string(7), "7");
    assert_eq!(decimal_string(10), "10");
    assert_eq!(decimal_string(65535), "65535");
}

#[test]
fn new_map_is_empty() {
    let map = TileMap::new(3, 4);
    assert_eq!(map.height(), 3);
    assert_eq!(map.width(), 4);
    assert_eq!(map.bomb_count(), 0);
    let rows = map.rows();
    assert_eq!(rows.len(), 3);
    for row in rows {
        assert_eq!(row.len(), 4);
        for tile in row {
            assert_eq!(*tile, Tile::Empty);
        }
    }
}

fn count_mines(map: &TileMap) -> usize {
    let mut mines = 0;
    for row in map.rows() {
        for tile in row {
            if matches!(tile, Tile::Bomb) {
                mines += 1;
            }
        }
    }
    mines
}

#[test]
fn set_bombs_places_exactly_the_requested_mines() {
    let mut map = TileMap::new(8, 8);
    map.set_bombs(10);
    assert_eq!(map.bomb_count(), 10);
    assert_eq!(count_mines(&map), 10);
}

#[test]
fn set_bombs_zero_leaves_the_map_empty() {
    let mut map = TileMap::new(4, 4);
    map.set_bombs(0);
    assert_eq!(map.bomb_count(), 0);
    for row in map.rows() {
        for tile in row {
            assert_eq!(*tile, Tile::Empty);
        }
    }
}

#[test]
fn set_bombs_can_fill_the_whole_grid() {
    let mut map = TileMap::new(3, 3);
    map.set_bombs(9);
    assert_eq!(count_mines(&map), 9);
    for row in map.rows() {
        for tile in row {
            assert_eq!(*tile, Tile::Bomb);
        }
    }
}

#[test]
fn neighbor_counts_match_adjacent_mines() {
    let mut map = TileMap::new(9, 7);
    map.set_bombs(15);
    let w = map.width() as i32;
    let h = map.height() as i32;
    let rows = map.rows();
    for y in 0..h {
        for x in 0..w {
            let tile = rows[y as usize][x as usize];
            if matches!(tile, Tile::Bomb) {
                continue;
            }
            let mut expected = 0u8;
            for dy in [-1i32, 0, 1] {
                for dx in [-1i32, 0, 1] {
                    if dx == 0 && dy == 0 {
                        continue;
                    }
                    let nx = x + dx;
                    let ny = y + dy;
                    if nx < 0 || ny < 0 || nx >= w || ny >= h {
                        continue;
                    }
                    if matches!(rows[ny as usize][nx as usize], Tile::Bomb) {
                        expected += 1;
                    }
                }
            }
            if expected == 0 {
                assert_eq!(tile, Tile::Empty);
            } else {
                assert_eq!(tile, Tile::BombNeighbor(expected));
            }
            let here = Coordinates { x: x as u16, y: y as u16 };
            assert_eq!(map.bomb_count_at(here), expected);
        }
    }
}

#[test]
fn off_grid_queries_return_safe_defaults() {
    let mut map = TileMap::new(1, 1);
    map.set_bombs(1);
    assert!(map.is_bombs_at(Coordinates { x: 0, y: 0 }));
    assert_eq!(map.bomb_count_at(Coordinates { x: 0, y: 0 }), 0);
    assert!(!map.is_bombs_at(Coordinates { x: 1, y: 0 }));
    assert_eq!(map.bomb_count_at(Coordinates { x: 1, y: 0 }), 0);
    assert!(!map.is_bombs_at(Coordinates { x: 0, y: 1 }));
    assert_eq!(map.bomb_count_at(Coordinates { x: 0, y: 1 }), 0);
}

#[test]
fn wrapped_coordinate_counts_as_off_grid() {
    let mut map = TileMap::new(1, 1);
    map.set_bombs(1);
    let wrapped = Coordinates { x: 0, y: 0 }.add((-1, 0));
    assert_eq!(wrapped.x, u16::MAX);
    assert!(!map.is_bombs_at(wrapped));
    assert_eq!(map.bomb_count_at(wrapped), 0);
}

#[test]
fn safe_square_at_lists_the_eight_neighbors_in_order() {
    let map = TileMap::new(3, 3);
    let square = map.safe_square_at(Coordinates { x: 1, y: 1 });
    let expected = [
        (0u16, 0u16),
        (1, 0),
        (2, 0),
        (0, 1),
        (2, 1),
        (0, 2),
        (1, 2),
        (2, 2),
    ];
    assert_eq!(square.len(), 8);
    for (i, (x, y)) in expected.iter().enumerate() {
        assert_eq!(square[i], Coordinates { x: *x, y: *y });
    }
    let corner = map.safe_square_at(Coordinates { x: 0, y: 0 });
    assert_eq!(corner[0], Coordinates { x: u16::MAX, y: u16::MAX });
}

#[test]
fn reiterating_rows_yields_identical_sequences() {
    let mut map = TileMap::new(6, 6);
    map.set_bombs(12);
    let first: Vec<Vec<Tile>> = map.rows().iter().map(|r| r.clone()).collect();
    let second: Vec<Vec<Tile>> = map.rows().iter().map(|r| r.clone()).collect();
    assert_eq!(first, second);
}

#[test]
fn map_console_output_draws_the_grid() {
    let map = TileMap::new(2, 3);
    let expected = "Map (3, 2) with 0 bombs:\n-----\n|   |\n|   |\n-----";
    assert_eq!(map.console_output(), expected);
}

#[test]
fn map_console_output_shows_mines_and_counts() {
    let mut map = TileMap::new(1, 1);
    map.set_bombs(1);
    assert_eq!(map.console_output(), "Map (1, 1) with 1 bombs:\n---\n|*|\n---");
}
