//! Two-player tic-tac-toe on a fixed 3×3 board: board state, move legality,
//! and win/tie detection, each operation verified against a model of the game.

pub mod game;
pub mod laws;
pub mod notation;
pub mod render;

pub use game::{BOARD_SIZE, Game, MoveError, Piece, Tile, Tiles, Winner};
pub use notation::{InvalidMove, parse_move};
pub use render::{render_tiles, tile_glyph};
