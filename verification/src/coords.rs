use vstd::prelude::*;
use crate::board::Board;
use crate::error::BoardError;

verus! {

/// Number of rows of the grid.
pub const ROWS: usize = 15;

/// Number of columns of the grid.
pub const COLS: usize = 15;

/// Number of squares of the grid.
pub const CELLS: usize = 225;

/// The coordinate (`row`, `col`) names a square of the grid.
pub open spec fn in_bounds(row: int, col: int) -> bool {
    0 <= row < ROWS && 0 <= col < COLS
}

/// The flat index `i` names a square of the grid.
pub open spec fn index_in_bounds(i: int) -> bool {
    0 <= i < CELLS
}

/// Row-major position of the square (`row`, `col`).
pub open spec fn flat_index(row: int, col: int) -> int {
    row * COLS + col
}

/// The coordinate (row, column) whose row-major position is `i`.
pub open spec fn coords_of(i: int) -> (int, int) {
    (i / (COLS as int), i % (COLS as int))
}

/// The error that reports (`row`, `col`) as lying off the grid.
pub open spec fn off_grid(row: usize, col: usize) -> BoardError {
    BoardError::OutOfBounds { row, col, rows: ROWS, cols: COLS }
}

impl Board {
    /// Accepts exactly the flat indices below `CELLS`. A rejected index is
    /// reported by the coordinate it would stand for, whose row is off the grid.
    pub fn bounds_check_index(i: usize) -> (r: Result<(), BoardError>)
        ensures
            index_in_bounds(i as int) ==> r == Ok::<(), BoardError>(()),
            !index_in_bounds(i as int) ==> r == Err::<(), BoardError>(
                off_grid((i / COLS) as usize, (i % COLS) as usize),
            ),
    {
        if i >= CELLS {
            Err(BoardError::OutOfBounds { row: i / COLS, col: i % COLS, rows: ROWS, cols: COLS })
        } else {
            Ok(())
        }
    }

    /// Accepts exactly the coordinates with `y < ROWS` and `x < COLS`; a value
    /// equal to the dimension is already off the grid.
    pub fn bounds_check_coords(y: usize, x: usize) -> (r: Result<(), BoardError>)
        ensures
            in_bounds(y as int, x as int) ==> r == Ok::<(), BoardError>(()),
            !in_bounds(y as int, x as int) ==> r == Err::<(), BoardError>(off_grid(y, x)),
    {
        if x >= COLS || y >= ROWS {
            Err(BoardError::OutOfBounds { row: y, col: x, rows: ROWS, cols: COLS })
        } else {
            Ok(())
        }
    }

    /// The coordinate (row, column) of the square at flat index `i`.
    pub fn index_to_coords(i: usize) -> (r: Result<(usize, usize), BoardError>)
        ensures
            index_in_bounds(i as int) ==> r == Ok::<(usize, usize), BoardError>(
                (coords_of(i as int).0 as usize, coords_of(i as int).1 as usize),
            ),
            !index_in_bounds(i as int) ==> r == Err::<(usize, usize), BoardError>(
                off_grid((i / COLS) as usize, (i % COLS) as usize),
            ),
    {
        match Self::bounds_check_index(i) {
            Err(e) => Err(e),
            Ok(()) => Ok((i / COLS, i % COLS)),
        }
    }

    /// The flat index of the square at row `y`, column `x`.
    pub fn coords_to_index(y: usize, x: usize) -> (r: Result<usize, BoardError>)
        ensures
            in_bounds(y as int, x as int) ==> r == Ok::<usize, BoardError>(
                flat_index(y as int, x as int) as usize,
            ),
            !in_bounds(y as int, x as int) ==> r == Err::<usize, BoardError>(off_grid(y, x)),
    {
        match Self::bounds_check_coords(y, x) {
            Err(e) => Err(e),
            Ok(()) => Ok(y * COLS + x),
        }
    }
}

/// Going from a coordinate on the grid to its flat index and back gives the
/// coordinate again, and the flat index is itself on the grid.
pub proof fn lemma_coords_round_trip(row: int, col: int)
    requires
        in_bounds(row, col),
    ensures
        index_in_bounds(flat_index(row, col)),
        coords_of(flat_index(row, col)) == (row, col),
{
}

/// Going from a flat index on the grid to its coordinate and back gives the
/// index again, and the coordinate is itself on the grid.
pub proof fn lemma_index_round_trip(i: int)
    requires
        index_in_bounds(i),
    ensures
        in_bounds(coords_of(i).0, coords_of(i).1),
        flat_index(coords_of(i).0, coords_of(i).1) == i,
{
}

} // verus!
