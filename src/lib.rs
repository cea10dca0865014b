//! Grid, tile geometry and placement rules for a tile-and-marble puzzle board.
//!
//! Tiles are placed on a grid whose unit is a quarter of a tile side. Tiles
//! occupy whole rows vertically and are aligned to even or odd grid columns
//! horizontally, depending on their kind. Marbles travel between sockets that
//! sit at fixed offsets inside each tile.
pub mod grid;
pub mod tile;
pub mod place_tile;
pub mod place_marble;
pub mod ui;
