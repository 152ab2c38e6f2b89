//! Core logic of a Minesweeper board: grid coordinates with wrapping delta
//! arithmetic, tile classification, mine placement and neighbor counting,
//! and the mapping from window pixels to grid cells. Rendering and event
//! plumbing live in the host application, outside this crate.

pub mod board;
pub mod board_options;
pub mod bounds;
pub mod components;
pub mod coordinates;
pub mod input;
pub mod rng;
pub mod text;
pub mod tile;
pub mod tile_map;
