use vstd::prelude::*;
use crate::coords::{
    CELLS, COLS, ROWS, coords_of, flat_index, in_bounds, lemma_index_round_trip, off_grid,
};
use crate::error::BoardError;
use crate::placement::{
    compatible, conflicts_at, first_conflict, fits, placeable, placed, rejection, run_square,
};
use crate::squares::{SquareCategory, category, square_category};
use vstd::string::*;

verus! {

/// What a square of the grid holds.
#[derive(Clone, Copy, PartialEq, Eq, Debug, Structural)]
pub enum Cell {
    /// Nothing was placed here.
    Empty,
    /// The marker that the centre square carries until a letter covers it.
    Anchor,
    /// A letter of a placed word.
    Letter(char),
}

/// The axis along which a word runs.
#[derive(Clone, Copy, PartialEq, Eq, Debug, Structural)]
pub enum Direction {
    /// Down a column: the row grows from letter to letter.
    Vertical,
    /// Along a row: the column grows from letter to letter.
    Horizontal,
}

/// The grid: `ROWS` rows of `COLS` squares, stored row by row.
pub struct Board {
    cells: [Cell; CELLS],
}

/// The squares of a grid on which nothing was placed yet, row by row: the
/// anchor on the centre square, nothing anywhere else.
pub open spec fn fresh_grid() -> Seq<Cell> {
    Seq::new(
        CELLS as nat,
        |i: int|
            if i == flat_index(7, 7) {
                Cell::Anchor
            } else {
                Cell::Empty
            },
    )
}

/// The `i`-th entry of a snapshot of `grid`: the coordinate of the square at
/// flat index `i`, what it holds and its category.
pub open spec fn snapshot_entry(grid: Seq<Cell>, i: int) -> (
    (usize, usize),
    Cell,
    Option<SquareCategory>,
) {
    let yx = coords_of(i);
    ((yx.0 as usize, yx.1 as usize), grid[i], square_category(yx.0, yx.1))
}

impl Board {
    /// The squares row by row: square (row, col) stands at `flat_index(row, col)`.
    pub closed spec fn view(&self) -> Seq<Cell> {
        self.cells@
    }

    /// What the square (`row`, `col`) holds.
    pub open spec fn cell(&self, row: int, col: int) -> Cell {
        self@[flat_index(row, col)]
    }

    /// Every grid has exactly `CELLS` squares.
    pub proof fn lemma_len(&self)
        ensures
            self@.len() == CELLS,
    {
    }

    /// A grid with the anchor on (7, 7) and every other square empty.
    pub fn new() -> (b: Board)
        ensures
            b@ == fresh_grid(),
            forall|row: int, col: int|
                in_bounds(row, col) ==> #[trigger] b.cell(row, col) == (if row == 7 && col == 7 {
                    Cell::Anchor
                } else {
                    Cell::Empty
                }),
    {
        let mut cells = [Cell::Empty; CELLS];
        cells[7 * COLS + 7] = Cell::Anchor;
        Board { cells }
    }

    /// What the square at row `row`, column `col` holds.
    pub fn read_cell(&self, row: usize, col: usize) -> (r: Result<Cell, BoardError>)
        ensures
            in_bounds(row as int, col as int) ==> r == Ok::<Cell, BoardError>(
                self.cell(row as int, col as int),
            ),
            !in_bounds(row as int, col as int) ==> r == Err::<Cell, BoardError>(
                off_grid(row, col),
            ),
    {
        match Self::coords_to_index(row, col) {
            Ok(i) => Ok(self.cells[i]),
            Err(e) => Err(e),
        }
    }

    /// Every square in row-major order, with its coordinate, what it holds
    /// and its category.
    pub fn snapshot(&self) -> (s: Vec<((usize, usize), Cell, Option<SquareCategory>)>)
        ensures
            s@ == Seq::new(CELLS as nat, |i: int| snapshot_entry(self@, i)),
    {
        let mut s: Vec<((usize, usize), Cell, Option<SquareCategory>)> = Vec::new();
        let mut row: usize = 0;
        while row < ROWS
            invariant
                row <= ROWS,
                s@.len() == row * COLS,
                forall|i: int| 0 <= i < s@.len() ==> s@[i] == snapshot_entry(self@, i),
            decreases ROWS - row,
        {
            let mut col: usize = 0;
            while col < COLS
                invariant
                    row < ROWS,
                    col <= COLS,
                    s@.len() == row * COLS + col,
                    forall|i: int| 0 <= i < s@.len() ==> s@[i] == snapshot_entry(self@, i),
                decreases COLS - col,
            {
                s.push(((row, col), self.cells[row * COLS + col], category(row, col)));
                col += 1;
            }
            row += 1;
        }
        s
    }

    /// Lays `word` onto the grid, its first letter on row `y`, column `x`, the
    /// others following along `dir`.
    ///
    /// The word must lie on the grid, and each square under it must be empty,
    /// carry the anchor or hold the letter that the word has for it. Then
    /// every letter is written. Otherwise nothing is: a start off the grid is
    /// reported as such, then an end off the grid, then the first letter of
    /// the word that meets another one. A word without letters is placed
    /// wherever its start is on the grid, and changes nothing.
    pub fn place_word(&mut self, word: &str, y: usize, x: usize, dir: Direction) -> (res: Result<
        (),
        BoardError,
    >)
        ensures
            res is Ok <==> placeable(old(self)@, word@, y as int, x as int, dir),
            res is Ok ==> final(self)@ == placed(
                old(self)@,
                word@,
                y as int,
                x as int,
                dir,
            ),
            res is Err ==> final(self)@ == old(self)@,
            res is Err ==> rejection(old(self)@, word@, y, x, dir, res->Err_0),
            !fits(word@.len(), y as int, x as int, dir) ==> res is Err && res->Err_0
                is OutOfBounds,
    {
        let ghost before = self@;
        if let Err(e) = Self::bounds_check_coords(y, x) {
            return Err(e);
        }
        let n: usize = word.unicode_len();
        if n == 0 {
            assert(self@ =~= placed(before, word@, y as int, x as int, dir));
            return Ok(());
        }
        let end = match dir {
            Direction::Horizontal => (y, x.saturating_add(n - 1)),
            Direction::Vertical => (y.saturating_add(n - 1), x),
        };
        if let Err(e) = Self::bounds_check_coords(end.0, end.1) {
            return Err(e);
        }
        let mut k: usize = 0;
        while k < n
            invariant
                k <= n,
                n == word@.len(),
                self@ == before,
                fits(n as nat, y as int, x as int, dir),
                forall|j: int|
                    0 <= j < k ==> !conflicts_at(before, word@, y as int, x as int, dir, j),
            decreases n - k,
        {
            let letter = word.get_char(k);
            let at = Self::run_index(y, x, dir, k);
            if !Self::accepts(self.cells[at], letter) {
                assert(first_conflict(before, word@, y as int, x as int, dir, k as int));
                return Err(BoardError::ConflictingLetter { letter, word: word.to_owned() });
            }
            k += 1;
        }
        k = 0;
        assert(self@ =~= placed(before, word@.take(0), y as int, x as int, dir));
        while k < n
            invariant
                k <= n,
                n == word@.len(),
                fits(n as nat, y as int, x as int, dir),
                self@ == placed(before, word@.take(k as int), y as int, x as int, dir),
            decreases n - k,
        {
            let letter = word.get_char(k);
            let at = Self::run_index(y, x, dir, k);
            self.cells[at] = Cell::Letter(letter);
            proof {
                let longer = placed(before, word@.take(k + 1), y as int, x as int, dir);
                assert forall|i: int| 0 <= i < CELLS implies self@[i] == longer[i] by {
                    lemma_index_round_trip(i);
                }
                assert(self@ =~= longer);
            }
            k += 1;
        }
        assert(word@.take(n as int) =~= word@);
        Ok(())
    }

    /// Lays `word` along row `y`, its first letter on column `x`.
    pub fn place_word_horizontal(&mut self, word: &str, y: usize, x: usize) -> (res: Result<
        (),
        BoardError,
    >)
        ensures
            res is Ok <==> placeable(old(self)@, word@, y as int, x as int, Direction::Horizontal),
            res is Ok ==> final(self)@ == placed(
                old(self)@,
                word@,
                y as int,
                x as int,
                Direction::Horizontal,
            ),
            res is Err ==> final(self)@ == old(self)@,
            res is Err ==> rejection(old(self)@, word@, y, x, Direction::Horizontal, res->Err_0),
            !fits(word@.len(), y as int, x as int, Direction::Horizontal) ==> res is Err && res->Err_0
                is OutOfBounds,
    {
        self.place_word(word, y, x, Direction::Horizontal)
    }

    /// Lays `word` down column `x`, its first letter on row `y`.
    pub fn place_word_vertical(&mut self, word: &str, y: usize, x: usize) -> (res: Result<
        (),
        BoardError,
    >)
        ensures
            res is Ok <==> placeable(old(self)@, word@, y as int, x as int, Direction::Vertical),
            res is Ok ==> final(self)@ == placed(
                old(self)@,
                word@,
                y as int,
                x as int,
                Direction::Vertical,
            ),
            res is Err ==> final(self)@ == old(self)@,
            res is Err ==> rejection(old(self)@, word@, y, x, Direction::Vertical, res->Err_0),
            !fits(word@.len(), y as int, x as int, Direction::Vertical) ==> res is Err && res->Err_0
                is OutOfBounds,
    {
        self.place_word(word, y, x, Direction::Vertical)
    }

    /// Whether a square that holds `cell` can take `letter`.
    fn accepts(cell: Cell, letter: char) -> (ok: bool)
        ensures
            ok == compatible(cell, letter),
    {
        match cell {
            Cell::Empty => true,
            Cell::Anchor => true,
            Cell::Letter(held) => held == letter,
        }
    }

    /// Flat index of the square under the `k`-th letter of a word on the grid.
    fn run_index(y: usize, x: usize, dir: Direction, k: usize) -> (i: usize)
        requires
            in_bounds(
                run_square(y as int, x as int, dir, k as int).0,
                run_square(y as int, x as int, dir, k as int).1,
            ),
        ensures
            i == flat_index(
                run_square(y as int, x as int, dir, k as int).0,
                run_square(y as int, x as int, dir, k as int).1,
            ),
            i < CELLS,
    {
        match dir {
            Direction::Horizontal => y * COLS + (x + k),
            Direction::Vertical => (y + k) * COLS + x,
        }
    }
}

} // verus!
