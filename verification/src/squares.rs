use vstd::prelude::*;

verus! {

/// The premium category of a square. A square without one has none of these.
#[derive(Clone, Copy, PartialEq, Eq, Debug, Structural)]
pub enum SquareCategory {
    TripleWord,
    DoubleWord,
    TripleLetter,
    DoubleLetter,
    Center,
}

/// The triple-word squares, as (row, column).
pub open spec fn triple_word_squares() -> Set<(int, int)> {
    set![
        (0x0, 0x0), (0x0, 0x7), (0x0, 0xE),
        (0x7, 0x0), (0x7, 0xE),
        (0xE, 0x0), (0xE, 0x7), (0xE, 0xE),
    ]
}

/// The double-word squares, as (row, column).
pub open spec fn double_word_squares() -> Set<(int, int)> {
    set![
        (0x1, 0x1), (0x1, 0xD),
        (0x2, 0x2), (0x2, 0xC),
        (0x3, 0x3), (0x3, 0xB),
        (0x4, 0x4), (0x4, 0xA),
        (0xA, 0x4), (0xA, 0xA),
        (0xB, 0x3), (0xB, 0xB),
        (0xC, 0x2), (0xC, 0xC),
        (0xD, 0x1), (0xD, 0xD),
    ]
}

/// The triple-letter squares, as (row, column).
pub open spec fn triple_letter_squares() -> Set<(int, int)> {
    set![
        (0x1, 0x5), (0x1, 0x9),
        (0x5, 0x1), (0x5, 0x5), (0x5, 0x9), (0x5, 0xD),
        (0x9, 0x1), (0x9, 0x5), (0x9, 0x9), (0x9, 0xD),
        (0xE, 0x5), (0xE, 0x9),
    ]
}

/// The double-letter squares, as (row, column).
pub open spec fn double_letter_squares() -> Set<(int, int)> {
    set![
        (0x0, 0x3), (0x0, 0xB),
        (0x2, 0x6), (0x2, 0x8),
        (0x3, 0x0), (0x3, 0x7), (0x3, 0xE),
        (0x6, 0x2), (0x6, 0x6), (0x6, 0x8), (0x6, 0xC),
        (0x7, 0x3), (0x7, 0xB),
        (0x8, 0x2), (0x8, 0x6), (0x8, 0x8), (0x8, 0xC),
        (0xB, 0x0), (0xB, 0x7), (0xB, 0xE),
        (0xC, 0x6), (0xC, 0x8),
        (0xE, 0x3), (0xE, 0xB),
    ]
}

/// The centre square, as (row, column).
pub open spec fn center_square() -> (int, int) {
    (0x7, 0x7)
}

/// The category of the square (`row`, `col`): the first of triple word,
/// double word, triple letter, double letter and centre whose squares
/// include it, and none where none does.
pub open spec fn square_category(row: int, col: int) -> Option<SquareCategory> {
    if triple_word_squares().contains((row, col)) {
        Some(SquareCategory::TripleWord)
    } else if double_word_squares().contains((row, col)) {
        Some(SquareCategory::DoubleWord)
    } else if triple_letter_squares().contains((row, col)) {
        Some(SquareCategory::TripleLetter)
    } else if double_letter_squares().contains((row, col)) {
        Some(SquareCategory::DoubleLetter)
    } else if (row, col) == center_square() {
        Some(SquareCategory::Center)
    } else {
        None
    }
}

/// The coordinates that `table` lists.
pub open spec fn listed_squares(table: Seq<(usize, usize)>) -> Set<(int, int)> {
    Set::new(
        |yx: (int, int)|
            exists|k: int|
                0 <= k < table.len() && (#[trigger] table[k]).0 == yx.0 && table[k].1 == yx.1,
    )
}

fn triple_word_table() -> (t: [(usize, usize); 8])
    ensures
        listed_squares(t@) =~= triple_word_squares(),
{
    [
        (0x0, 0x0), (0x0, 0x7), (0x0, 0xE),
        (0x7, 0x0), (0x7, 0xE),
        (0xE, 0x0), (0xE, 0x7), (0xE, 0xE),
    ]
}

fn double_word_table() -> (t: [(usize, usize); 16])
    ensures
        listed_squares(t@) =~= double_word_squares(),
{
    [
        (0x1, 0x1), (0x1, 0xD),
        (0x2, 0x2), (0x2, 0xC),
        (0x3, 0x3), (0x3, 0xB),
        (0x4, 0x4), (0x4, 0xA),
        (0xA, 0x4), (0xA, 0xA),
        (0xB, 0x3), (0xB, 0xB),
        (0xC, 0x2), (0xC, 0xC),
        (0xD, 0x1), (0xD, 0xD),
    ]
}

fn triple_letter_table() -> (t: [(usize, usize); 12])
    ensures
        listed_squares(t@) =~= triple_letter_squares(),
{
    [
        (0x1, 0x5), (0x1, 0x9),
        (0x5, 0x1), (0x5, 0x5), (0x5, 0x9), (0x5, 0xD),
        (0x9, 0x1), (0x9, 0x5), (0x9, 0x9), (0x9, 0xD),
        (0xE, 0x5), (0xE, 0x9),
    ]
}

fn double_letter_table() -> (t: [(usize, usize); 24])
    ensures
        listed_squares(t@) =~= double_letter_squares(),
{
    [
        (0x0, 0x3), (0x0, 0xB),
        (0x2, 0x6), (0x2, 0x8),
        (0x3, 0x0), (0x3, 0x7), (0x3, 0xE),
        (0x6, 0x2), (0x6, 0x6), (0x6, 0x8), (0x6, 0xC),
        (0x7, 0x3), (0x7, 0xB),
        (0x8, 0x2), (0x8, 0x6), (0x8, 0x8), (0x8, 0xC),
        (0xB, 0x0), (0xB, 0x7), (0xB, 0xE),
        (0xC, 0x6), (0xC, 0x8),
        (0xE, 0x3), (0xE, 0xB),
    ]
}

/// Whether `table` lists the coordinate (`row`, `col`).
fn lists(table: &[(usize, usize)], row: usize, col: usize) -> (found: bool)
    ensures
        found == listed_squares(table@).contains((row as int, col as int)),
{
    let mut k: usize = 0;
    while k < table.len()
        invariant
            k <= table.len(),
            forall|j: int| 0 <= j < k ==> !((#[trigger] table[j]).0 == row && table[j].1 == col),
        decreases table.len() - k,
    {
        if table[k].0 == row && table[k].1 == col {
            return true;
        }
        k += 1;
    }
    false
}

/// The category of the square at row `row`, column `col`. It depends on the
/// position alone, and is defined for every position, on the grid or off it.
pub fn category(row: usize, col: usize) -> (c: Option<SquareCategory>)
    ensures
        c == square_category(row as int, col as int),
{
    if lists(&triple_word_table(), row, col) {
        Some(SquareCategory::TripleWord)
    } else if lists(&double_word_table(), row, col) {
        Some(SquareCategory::DoubleWord)
    } else if lists(&triple_letter_table(), row, col) {
        Some(SquareCategory::TripleLetter)
    } else if lists(&double_letter_table(), row, col) {
        Some(SquareCategory::DoubleLetter)
    } else if row == 0x7 && col == 0x7 {
        Some(SquareCategory::Center)
    } else {
        None
    }
}

/// No square is listed twice: the four sets of premium squares have no square
/// in common, and none of them holds the centre square. So the order in which
/// the sets are asked never decides, and a square has a category exactly when
/// it is in that category's set: the centre square is `Center`, and a square
/// in no set that is not the centre square has none.
pub proof fn lemma_categories_disjoint(row: int, col: int)
    ensures
        square_category(row, col) == Some(SquareCategory::TripleWord)
            <==> triple_word_squares().contains((row, col)),
        square_category(row, col) == Some(SquareCategory::DoubleWord)
            <==> double_word_squares().contains((row, col)),
        square_category(row, col) == Some(SquareCategory::TripleLetter)
            <==> triple_letter_squares().contains((row, col)),
        square_category(row, col) == Some(SquareCategory::DoubleLetter)
            <==> double_letter_squares().contains((row, col)),
        square_category(row, col) == Some(SquareCategory::Center) <==> (row, col)
            == center_square(),
        square_category(row, col) is None <==> !triple_word_squares().contains((row, col))
            && !double_word_squares().contains((row, col)) && !triple_letter_squares().contains(
            (row, col),
        ) && !double_letter_squares().contains((row, col)) && (row, col) != center_square(),
{
}

/// Every premium square and the centre square lie on the grid.
pub proof fn lemma_categories_on_grid(row: int, col: int)
    requires
        square_category(row, col) is Some,
    ensures
        crate::coords::in_bounds(row, col),
{
}

} // verus!
