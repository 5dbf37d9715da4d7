use vstd::prelude::*;

verus! {

/// Why a request on the grid was turned down. The grid is never changed by a
/// request that ends in one of these.
#[derive(PartialEq, Eq, Debug)]
pub enum BoardError {
    /// The coordinate (`row`, `col`) lies off the grid, whose rows are
    /// `0..rows` and whose columns are `0..cols`.
    OutOfBounds { row: usize, col: usize, rows: usize, cols: usize },
    /// A square that `word` would cover already holds another letter than
    /// `letter`, the one that `word` has for it.
    ConflictingLetter { letter: char, word: String },
}

} // verus!
