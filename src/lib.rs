//! A minesweeper board: a bordered grid of cells, randomly seeded with bombs, with the
//! number of neighbouring bombs worked out for every other cell, and a reveal flag per cell.

pub mod board;
pub mod game_manager;
mod mine_source;

pub use board::Cell;
pub use game_manager::GameManager;
