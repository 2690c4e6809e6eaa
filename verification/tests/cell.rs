use std::str::FromStr;

use tic_tac_toe::cell::INVALID_MOVE;
use tic_tac_toe::{Cell, CellIndex};

#[test]
fn rows_and_columns() {
    let expected = [(0, 0), (0, 1), (0, 2), (1, 0), (1, 1), (1, 2), (2, 0), (2, 1), (2, 2)];
    for p in 0..9u8 {
        let index = CellIndex::new(p);
        assert_eq!((index.row(), index.column()), expected[p as usize]);
    }
}

#[test]
fn parsing_digits_gives_the_cell_of_that_number() {
    let digits = ["0", "1", "2", "3", "4", "5", "6", "7", "8"];
    for (number, text) in digits.iter().enumerate() {
        assert_eq!(CellIndex::from_str(text), Ok(CellIndex::new(number as u8)));
        assert_eq!(text.parse::<CellIndex>(), Ok(CellIndex::new(number as u8)));
    }
}

#[test]
fn parsing_anything_else_fails() {
    let message = "Only digits from 0 to 8 count as valid moves.";
    assert_eq!(INVALID_MOVE, message);
    for text in ["9", "", "a", "12", "00", " 1", "1 ", "-1", "\u{661}", "x4"] {
        assert_eq!(CellIndex::from_str(text), Err(message), "{:?}", text);
        assert_eq!(text.parse::<CellIndex>(), Err(message), "{:?}", text);
    }
}

#[test]
fn cell_index_in_words() {
    assert_eq!(CellIndex::new(0).to_string(), "cell index: 0");
    assert_eq!(CellIndex::new(5).to_string(), "cell index: 5");
    assert_eq!(CellIndex::new(8).to_string(), "cell index: 8");
}

#[test]
fn symbols_of_cells() {
    assert_eq!(Cell::Empty.symbol(), b' ');
    assert_eq!(Cell::PlayerOne.symbol(), b'X');
    assert_eq!(Cell::PlayerTwo.symbol(), b'O');
}
