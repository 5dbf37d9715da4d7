//! A word-placement grid of 15 rows and 15 columns.
//!
//! The grid starts out empty except for an anchor on its centre square. Words
//! are laid along a row or a column; a placement either writes every letter
//! or leaves the grid as it was. Each square also belongs to at most one
//! premium category, which depends on its position alone.

pub mod board;
pub mod coords;
pub mod error;
pub mod placement;
pub mod squares;

pub use board::{Board, Cell, Direction};
pub use error::BoardError;
pub use squares::SquareCategory;
