use board_plugin::board::create_board;
use board_plugin::board::Board;
use board_plugin::board::BoardError;
use board_plugin::board_options::resolve_board_position;
use board_plugin::board_options::resolve_tile_size;
use board_plugin::board_options::BoardOptions;
use board_plugin::board_options::BoardPosition;
use board_plugin::board_options::TileSize;
use board_plugin::bounds::Bounds2;
use board_plugin::bounds::Point2;
use board_plugin::bounds::Point3;
use board_plugin::coordinates::Coordinates;
use board_plugin::input::event_handle;
use board_plugin::input::ButtonState;
use board_plugin::input::InputAction;
use board_plugin::input::MouseButton;
use board_plugin::tile_map::TileMap;

#[test]
fn in_bounds_is_inclusive_on_all_edges() {
    let b = Bounds2 {
        position: Point2 { x: 0, y: 0 },
        size: Point2 { x: 100, y: 100 },
    };
    assert!(b.in_bounds(Point2 { x: 0, y: 0 }));
    assert!(b.in_bounds(Point2 { x: 100, y: 100 }));
    assert!(b.in_bounds(Point2 { x: 0, y: 100 }));
    assert!(b.in_bounds(Point2 { x: 55, y: 1 }));
    assert!(!b.in_bounds(Point2 { x: -1, y: 0 }));
    assert!(!b.in_bounds(Point2 { x: 0, y: -1 }));
    assert!(!b.in_bounds(Point2 { x: 101, y: 100 }));
    assert!(!b.in_bounds(Point2 { x: 100, y: 101 }));
}

fn sample_board() -> Board {
    Board {
        bounds: Bounds2 {
            position: Point2 { x: 0, y: 0 },
            size: Point2 { x: 100, y: 100 },
        },
        tile_size: 10,
        tile_map: TileMap::new(10, 10),
    }
}

#[test]
fn mouse_position_maps_centered_point_to_cell() {
    let board = sample_board();
    let hit = board.mouse_position(Point2 { x: 0, y: 0 }, Point2 { x: 5, y: 5 });
    assert_eq!(hit, Some(Coordinates { x: 0, y: 0 }));
    let miss = board.mouse_position(Point2 { x: 0, y: 0 }, Point2 { x: 150, y: 150 });
    assert_eq!(miss, None);
}

#[test]
fn mouse_position_far_edge_lands_on_the_last_cell() {
    let board = sample_board();
    let corner = board.mouse_position(Point2 { x: 0, y: 0 }, Point2 { x: 100, y: 100 });
    assert_eq!(corner, Some(Coordinates { x: 9, y: 9 }));
    let edge = board.mouse_position(Point2 { x: 0, y: 0 }, Point2 { x: 100, y: 50 });
    assert_eq!(edge, Some(Coordinates { x: 9, y: 5 }));
    let past = board.mouse_position(Point2 { x: 0, y: 0 }, Point2 { x: 101, y: 50 });
    assert_eq!(past, None);
}

#[test]
fn mouse_position_subtracts_half_the_window() {
    let board = sample_board();
    let hit = board.mouse_position(Point2 { x: 200, y: 200 }, Point2 { x: 105, y: 105 });
    assert_eq!(hit, Some(Coordinates { x: 0, y: 0 }));
    let hit = board.mouse_position(Point2 { x: 200, y: 200 }, Point2 { x: 199, y: 145 });
    assert_eq!(hit, Some(Coordinates { x: 9, y: 4 }));
    let miss = board.mouse_position(Point2 { x: 200, y: 200 }, Point2 { x: 99, y: 105 });
    assert_eq!(miss, None);
}

#[test]
fn adaptive_tile_size_fits_the_window() {
    let size = resolve_tile_size(
        Point2 { x: 200, y: 100 },
        &TileSize::Adaptive { min: 10, max: 50 },
        (20, 10),
    );
    assert_eq!(size, 10);
}

#[test]
fn adaptive_tile_size_clamps_to_its_bounds() {
    let large = resolve_tile_size(
        Point2 { x: 2000, y: 2000 },
        &TileSize::Adaptive { min: 10, max: 50 },
        (10, 10),
    );
    assert_eq!(large, 50);
    let small = resolve_tile_size(
        Point2 { x: 50, y: 50 },
        &TileSize::Adaptive { min: 10, max: 50 },
        (10, 10),
    );
    assert_eq!(small, 10);
}

#[test]
fn fixed_tile_size_passes_through() {
    let size = resolve_tile_size(Point2 { x: 200, y: 100 }, &TileSize::Fixed(25), (20, 10));
    assert_eq!(size, 25);
}

#[test]
fn custom_board_position_passes_through() {
    let p = resolve_board_position(
        Point2 { x: 100, y: 60 },
        &BoardPosition::Custom(Point3 { x: 7, y: 8, z: 9 }),
    );
    assert_eq!(p, Point3 { x: 7, y: 8, z: 9 });
}

#[test]
fn centered_board_position_offsets_half_the_board() {
    let p = resolve_board_position(
        Point2 { x: 100, y: 60 },
        &BoardPosition::Centered { offset: Point3 { x: 3, y: -4, z: 0 } },
    );
    assert_eq!(p, Point3 { x: -47, y: -34, z: 0 });
}

#[test]
fn default_options_match_the_documented_values() {
    let options = BoardOptions::default();
    assert_eq!(options.map_size, (15, 15));
    assert_eq!(options.bomb_count, 30);
    assert!(matches!(options.tile_size, TileSize::Adaptive { min: 10, max: 50 }));
    assert!(matches!(
        options.position,
        BoardPosition::Centered { offset: Point3 { x: 0, y: 0, z: 0 } }
    ));
    assert_eq!(options.tile_padding, 0);
    assert!(!options.safe_start);
}

#[test]
fn create_board_rejects_too_many_mines() {
    let options = BoardOptions {
        map_size: (2, 2),
        bomb_count: 5,
        ..BoardOptions::default()
    };
    let r = create_board(&options, Point2 { x: 400, y: 300 });
    assert!(matches!(r, Err(BoardError::MineCountExceedsCells)));
}

#[test]
fn create_board_builds_matching_bounds() {
    let options = BoardOptions {
        map_size: (4, 3),
        bomb_count: 5,
        tile_size: TileSize::Fixed(20),
        position: BoardPosition::Custom(Point3 { x: 7, y: 8, z: 0 }),
        ..BoardOptions::default()
    };
    let board = create_board(&options, Point2 { x: 400, y: 300 }).unwrap();
    assert_eq!(board.tile_size, 20);
    assert_eq!(board.bounds.size, Point2 { x: 80, y: 60 });
    assert_eq!(board.bounds.position, Point2 { x: 7, y: 8 });
    assert_eq!(board.tile_map.width(), 4);
    assert_eq!(board.tile_map.height(), 3);
    assert_eq!(board.tile_map.bomb_count(), 5);
}

#[test]
fn create_board_centers_the_board() {
    let options = BoardOptions {
        map_size: (2, 2),
        bomb_count: 0,
        ..BoardOptions::default()
    };
    let board = create_board(&options, Point2 { x: 200, y: 100 }).unwrap();
    assert_eq!(board.tile_size, 50);
    assert_eq!(board.bounds.size, Point2 { x: 100, y: 100 });
    assert_eq!(board.bounds.position, Point2 { x: -50, y: -50 });
}

#[test]
fn event_handle_resolves_presses_over_the_board() {
    let board = sample_board();
    let window = Point2 { x: 0, y: 0 };
    let inside = Point2 { x: 35, y: 72 };
    let left = event_handle(&board, MouseButton::Left, ButtonState::Pressed, window, inside);
    assert_eq!(left, Some((Coordinates { x: 3, y: 7 }, InputAction::Uncover)));
    let right = event_handle(&board, MouseButton::Right, ButtonState::Pressed, window, inside);
    assert_eq!(right, Some((Coordinates { x: 3, y: 7 }, InputAction::Mark)));
}

#[test]
fn event_handle_ignores_releases_other_buttons_and_misses() {
    let board = sample_board();
    let window = Point2 { x: 0, y: 0 };
    let inside = Point2 { x: 35, y: 72 };
    let outside = Point2 { x: 135, y: 72 };
    assert_eq!(
        event_handle(&board, MouseButton::Left, ButtonState::Released, window, inside),
        None
    );
    assert_eq!(
        event_handle(&board, MouseButton::Other, ButtonState::Pressed, window, inside),
        None
    );
    assert_eq!(
        event_handle(&board, MouseButton::Left, ButtonState::Pressed, window, outside),
        None
    );
}
