//! Conway's Game of Life on a finite rectangular board: the board and its generations,
//! the record it is saved as, its image, and the editing session around it.

pub mod grid;
pub mod board;
pub mod codec;
pub mod dimension;
pub mod editor;
pub mod image;
pub mod laws;

pub use board::Board;
pub use codec::{DecodeError, Record};
pub use editor::{Editor, ResizeOutcome};
pub use grid::Grid;
