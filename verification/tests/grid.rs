use wordsmith::squares::category;
use wordsmith::{Board, BoardError, Cell, Direction, SquareCategory};

fn off_grid(row: usize, col: usize) -> BoardError {
    BoardError::OutOfBounds { row, col, rows: 15, cols: 15 }
}

#[test]
fn coordinates_on_the_grid_round_trip() {
    for row in 0..15 {
        for col in 0..15 {
            assert_eq!(Board::bounds_check_coords(row, col), Ok(()));
            let index = Board::coords_to_index(row, col);
            assert_eq!(index, Ok(row * 15 + col));
            assert_eq!(Board::index_to_coords(index.unwrap()), Ok((row, col)));
        }
    }
}

#[test]
fn indices_on_the_grid_round_trip() {
    for i in 0..225 {
        assert_eq!(Board::bounds_check_index(i), Ok(()));
        let (row, col) = Board::index_to_coords(i).unwrap();
        assert_eq!((row, col), (i / 15, i % 15));
        assert_eq!(Board::coords_to_index(row, col), Ok(i));
    }
}

#[test]
fn exact_indices() {
    assert_eq!(Board::coords_to_index(0, 0), Ok(0));
    assert_eq!(Board::coords_to_index(0, 14), Ok(14));
    assert_eq!(Board::coords_to_index(1, 0), Ok(15));
    assert_eq!(Board::coords_to_index(7, 7), Ok(112));
    assert_eq!(Board::coords_to_index(14, 14), Ok(224));
    assert_eq!(Board::index_to_coords(0), Ok((0, 0)));
    assert_eq!(Board::index_to_coords(112), Ok((7, 7)));
    assert_eq!(Board::index_to_coords(224), Ok((14, 14)));
    assert_eq!(Board::index_to_coords(29), Ok((1, 14)));
}

#[test]
fn dimension_itself_is_off_the_grid() {
    for (row, col) in [(15, 0), (0, 15), (15, 15), (14, 15), (15, 14), (16, 3), (usize::MAX, 0)] {
        assert_eq!(Board::bounds_check_coords(row, col), Err(off_grid(row, col)));
        assert_eq!(Board::coords_to_index(row, col), Err(off_grid(row, col)));
    }
    assert_eq!(Board::bounds_check_coords(14, 14), Ok(()));
}

#[test]
fn index_past_the_last_square_is_off_the_grid() {
    assert_eq!(Board::bounds_check_index(224), Ok(()));
    assert_eq!(Board::bounds_check_index(225), Err(off_grid(15, 0)));
    assert_eq!(Board::index_to_coords(225), Err(off_grid(15, 0)));
    assert_eq!(Board::index_to_coords(233), Err(off_grid(15, 8)));
    assert_eq!(
        Board::index_to_coords(usize::MAX),
        Err(off_grid(usize::MAX / 15, usize::MAX % 15))
    );
}

#[test]
fn fresh_grid_holds_only_the_anchor() {
    let board = Board::new();
    let mut anchors = 0;
    let mut empties = 0;
    for row in 0..15 {
        for col in 0..15 {
            match board.read_cell(row, col) {
                Ok(Cell::Anchor) => {
                    assert_eq!((row, col), (7, 7));
                    anchors += 1;
                }
                Ok(Cell::Empty) => empties += 1,
                other => panic!("({row}, {col}) holds {other:?}"),
            }
        }
    }
    assert_eq!(anchors, 1);
    assert_eq!(empties, 224);
}

#[test]
fn read_cell_rejects_coordinates_off_the_grid() {
    let board = Board::new();
    assert_eq!(board.read_cell(15, 7), Err(off_grid(15, 7)));
    assert_eq!(board.read_cell(7, 15), Err(off_grid(7, 15)));
    assert_eq!(board.read_cell(14, 14), Ok(Cell::Empty));
}

#[test]
fn snapshot_lists_every_square_row_by_row() {
    let mut board = Board::new();
    assert_eq!(board.place_word("hello", 5, 7, Direction::Vertical), Ok(()));
    let snapshot = board.snapshot();
    assert_eq!(snapshot.len(), 225);
    for (i, entry) in snapshot.iter().enumerate() {
        let (row, col) = (i / 15, i % 15);
        assert_eq!(entry.0, (row, col));
        assert_eq!(Ok(entry.1), board.read_cell(row, col));
        assert_eq!(entry.2, category(row, col));
    }
    assert_eq!(snapshot[0], ((0, 0), Cell::Empty, Some(SquareCategory::TripleWord)));
    assert_eq!(snapshot[112], ((7, 7), Cell::Letter('l'), Some(SquareCategory::Center)));
    assert_eq!(snapshot[82], ((5, 7), Cell::Letter('h'), None));
    assert_eq!(snapshot[224], ((14, 14), Cell::Empty, Some(SquareCategory::TripleWord)));
}

#[test]
fn snapshot_of_a_fresh_grid_shows_the_anchor() {
    let snapshot = Board::new().snapshot();
    assert_eq!(snapshot[112], ((7, 7), Cell::Anchor, Some(SquareCategory::Center)));
    assert_eq!(snapshot.iter().filter(|entry| entry.1 == Cell::Empty).count(), 224);
}

const TRIPLE_WORD: [(usize, usize); 8] =
    [(0, 0), (0, 7), (0, 14), (7, 0), (7, 14), (14, 0), (14, 7), (14, 14)];

const DOUBLE_WORD: [(usize, usize); 16] = [
    (1, 1),
    (1, 13),
    (2, 2),
    (2, 12),
    (3, 3),
    (3, 11),
    (4, 4),
    (4, 10),
    (10, 4),
    (10, 10),
    (11, 3),
    (11, 11),
    (12, 2),
    (12, 12),
    (13, 1),
    (13, 13),
];

const TRIPLE_LETTER: [(usize, usize); 12] = [
    (1, 5),
    (1, 9),
    (5, 1),
    (5, 5),
    (5, 9),
    (5, 13),
    (9, 1),
    (9, 5),
    (9, 9),
    (9, 13),
    (14, 5),
    (14, 9),
];

const DOUBLE_LETTER: [(usize, usize); 24] = [
    (0, 3),
    (0, 11),
    (2, 6),
    (2, 8),
    (3, 0),
    (3, 7),
    (3, 14),
    (6, 2),
    (6, 6),
    (6, 8),
    (6, 12),
    (7, 3),
    (7, 11),
    (8, 2),
    (8, 6),
    (8, 8),
    (8, 12),
    (11, 0),
    (11, 7),
    (11, 14),
    (12, 6),
    (12, 8),
    (14, 3),
    (14, 11),
];

#[test]
fn listed_squares_have_their_category() {
    for (row, col) in TRIPLE_WORD {
        assert_eq!(category(row, col), Some(SquareCategory::TripleWord));
    }
    for (row, col) in DOUBLE_WORD {
        assert_eq!(category(row, col), Some(SquareCategory::DoubleWord));
    }
    for (row, col) in TRIPLE_LETTER {
        assert_eq!(category(row, col), Some(SquareCategory::TripleLetter));
    }
    for (row, col) in DOUBLE_LETTER {
        assert_eq!(category(row, col), Some(SquareCategory::DoubleLetter));
    }
    assert_eq!(category(7, 7), Some(SquareCategory::Center));
}

#[test]
fn unlisted_squares_have_no_category() {
    let mut plain = 0;
    for row in 0..15 {
        for col in 0..15 {
            let listed = TRIPLE_WORD.contains(&(row, col))
                || DOUBLE_WORD.contains(&(row, col))
                || TRIPLE_LETTER.contains(&(row, col))
                || DOUBLE_LETTER.contains(&(row, col))
                || (row, col) == (7, 7);
            assert_eq!(category(row, col).is_some(), listed);
            if !listed {
                plain += 1;
            }
        }
    }
    assert_eq!(plain, 225 - 8 - 16 - 12 - 24 - 1);
    assert_eq!(category(7, 8), None);
    assert_eq!(category(0, 1), None);
    assert_eq!(category(15, 15), None);
    assert_eq!(category(usize::MAX, 0), None);
}

#[test]
fn category_does_not_depend_on_what_a_square_holds() {
    let mut board = Board::new();
    assert_eq!(board.place_word("abc", 0, 0, Direction::Horizontal), Ok(()));
    let snapshot = board.snapshot();
    assert_eq!(snapshot[0], ((0, 0), Cell::Letter('a'), Some(SquareCategory::TripleWord)));
    assert_eq!(snapshot[3], ((0, 3), Cell::Empty, Some(SquareCategory::DoubleLetter)));
}
