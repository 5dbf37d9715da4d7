use vstd::prelude::*;
use crate::board::{Cell, Direction};
use crate::coords::{coords_of, flat_index, in_bounds, off_grid};
use crate::error::BoardError;

verus! {

/// A square that holds `cell` can take the letter `c`: it is empty, carries
/// the anchor, or holds that very letter already.
pub open spec fn compatible(cell: Cell, c: char) -> bool {
    cell == Cell::Empty || cell == Cell::Anchor || cell == Cell::Letter(c)
}

/// The square that the `k`-th letter of a word covers, when the word starts
/// on (`row`, `col`) and runs along `dir`.
pub open spec fn run_square(row: int, col: int, dir: Direction, k: int) -> (int, int) {
    match dir {
        Direction::Horizontal => (row, col + k),
        Direction::Vertical => (row + k, col),
    }
}

/// A word of `len` letters that starts on (`row`, `col`) and runs along `dir`
/// lies on the grid: its first square does, and so does its last one.
pub open spec fn fits(len: nat, row: int, col: int, dir: Direction) -> bool {
    &&& in_bounds(row, col)
    &&& len > 0 ==> in_bounds(
        run_square(row, col, dir, len - 1).0,
        run_square(row, col, dir, len - 1).1,
    )
}

/// The square under the `k`-th letter of `word` holds another letter.
pub open spec fn conflicts_at(
    grid: Seq<Cell>,
    word: Seq<char>,
    row: int,
    col: int,
    dir: Direction,
    k: int,
) -> bool {
    let yx = run_square(row, col, dir, k);
    !compatible(grid[flat_index(yx.0, yx.1)], word[k])
}

/// Some letter of `word` meets another letter on the grid.
pub open spec fn has_conflict(
    grid: Seq<Cell>,
    word: Seq<char>,
    row: int,
    col: int,
    dir: Direction,
) -> bool {
    exists|k: int| 0 <= k < word.len() && conflicts_at(grid, word, row, col, dir, k)
}

/// The `k`-th letter of `word` is the first one that meets another letter.
pub open spec fn first_conflict(
    grid: Seq<Cell>,
    word: Seq<char>,
    row: int,
    col: int,
    dir: Direction,
    k: int,
) -> bool {
    &&& 0 <= k < word.len()
    &&& conflicts_at(grid, word, row, col, dir, k)
    &&& forall|j: int| 0 <= j < k ==> !conflicts_at(grid, word, row, col, dir, j)
}

/// The place within the run that the square (`r`, `c`) would have.
pub open spec fn run_offset(row: int, col: int, dir: Direction, r: int, c: int) -> int {
    match dir {
        Direction::Horizontal => c - col,
        Direction::Vertical => r - row,
    }
}

/// The square (`r`, `c`) is one of the first `len` squares of the run.
pub open spec fn on_run(len: nat, row: int, col: int, dir: Direction, r: int, c: int) -> bool {
    let k = run_offset(row, col, dir, r, c);
    0 <= k < len && run_square(row, col, dir, k) == (r, c)
}

/// What the square at flat index `i` holds after `word` was written onto
/// `grid`: its letter where the word covers it, else what it held.
pub open spec fn placed_cell(
    grid: Seq<Cell>,
    word: Seq<char>,
    row: int,
    col: int,
    dir: Direction,
    i: int,
) -> Cell {
    let yx = coords_of(i);
    if on_run(word.len(), row, col, dir, yx.0, yx.1) {
        Cell::Letter(word[run_offset(row, col, dir, yx.0, yx.1)])
    } else {
        grid[i]
    }
}

/// The grid after `word` was written onto `grid`: each square of the run
/// holds its letter, every other square what it held.
pub open spec fn placed(
    grid: Seq<Cell>,
    word: Seq<char>,
    row: int,
    col: int,
    dir: Direction,
) -> Seq<Cell> {
    Seq::new(grid.len(), |i: int| placed_cell(grid, word, row, col, dir, i))
}

/// `v` as a `usize`, or the largest `usize` where `v` is beyond it.
pub open spec fn saturated(v: int) -> usize {
    if v > usize::MAX {
        usize::MAX
    } else {
        v as usize
    }
}

/// The last square of a word of `len` letters, as far as a `usize` can say it.
pub open spec fn run_end(len: nat, row: usize, col: usize, dir: Direction) -> (usize, usize)
    recommends
        len > 0,
{
    match dir {
        Direction::Horizontal => (row, saturated(col + len - 1)),
        Direction::Vertical => (saturated(row + len - 1), col),
    }
}

/// `word` can be laid onto `grid` from (`row`, `col`) along `dir`: it lies on
/// the grid and none of its letters meets another one.
pub open spec fn placeable(
    grid: Seq<Cell>,
    word: Seq<char>,
    row: int,
    col: int,
    dir: Direction,
) -> bool {
    fits(word.len(), row, col, dir) && !has_conflict(grid, word, row, col, dir)
}

/// `e` is the error that laying `word` onto `grid` ends in, where it cannot be
/// laid: the start where that is off the grid; else the end where that is;
/// else the first letter of the word that meets another one, with the word.
pub open spec fn rejection(
    grid: Seq<Cell>,
    word: Seq<char>,
    row: usize,
    col: usize,
    dir: Direction,
    e: BoardError,
) -> bool {
    if !in_bounds(row as int, col as int) {
        e == off_grid(row, col)
    } else if !fits(word.len(), row as int, col as int, dir) {
        e == off_grid(run_end(word.len(), row, col, dir).0, run_end(word.len(), row, col, dir).1)
    } else {
        &&& e matches BoardError::ConflictingLetter { letter, word: named }
        &&& named@ == word
        &&& exists|k: int|
            first_conflict(grid, word, row as int, col as int, dir, k) && letter == word[k]
    }
}

} // verus!
