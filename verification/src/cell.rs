//! Board positions and what occupies them.

use vstd::prelude::*;
use vstd::string::*;

verus! {

/// State of a single cell of the board.
#[derive(Clone, Copy, PartialEq, Eq, Debug, Structural)]
pub enum Cell {
    /// Neither player holds the cell.
    Empty,
    /// The cell holds a stone of the player who moves first.
    PlayerOne,
    /// The cell holds a stone of the player who moves second.
    PlayerTwo,
}

/// Byte that stands for an empty cell in the rendered board.
pub const SYMBOL_EMPTY: u8 = 0x20;

/// Byte that stands for a stone of player one in the rendered board.
pub const SYMBOL_PLAYER_ONE: u8 = 0x58;

/// Byte that stands for a stone of player two in the rendered board.
pub const SYMBOL_PLAYER_TWO: u8 = 0x4f;

impl Cell {
    /// The ASCII character a cell is drawn with: a blank, `X` or `O`.
    pub open spec fn symbol_spec(self) -> u8 {
        match self {
            Cell::Empty => SYMBOL_EMPTY,
            Cell::PlayerOne => SYMBOL_PLAYER_ONE,
            Cell::PlayerTwo => SYMBOL_PLAYER_TWO,
        }
    }

    /// The ASCII character a cell is drawn with: a blank, `X` or `O`.
    #[verifier::when_used_as_spec(symbol_spec)]
    pub fn symbol(self) -> (c: u8)
        ensures
            c == self.symbol_spec(),
    {
        match self {
            Cell::Empty => SYMBOL_EMPTY,
            Cell::PlayerOne => SYMBOL_PLAYER_ONE,
            Cell::PlayerTwo => SYMBOL_PLAYER_TWO,
        }
    }
}

/// Number of cells on the board.
pub const CELLS: u8 = 9;

/// Position of a cell. Cells are numbered row by row, from the top left (0) to the
/// bottom right (8):
///
/// ```text
/// 0 1 2
/// 3 4 5
/// 6 7 8
/// ```
#[derive(Clone, Copy, PartialEq, Eq, Debug, Structural)]
pub struct CellIndex(u8);

impl View for CellIndex {
    type V = int;

    /// The position as a number.
    closed spec fn view(&self) -> int {
        self.0 as int
    }
}

/// What is said of a text that names no move.
pub const INVALID_MOVE: &'static str = "Only digits from 0 to 8 count as valid moves.";

/// Whether `text` names a move: a single digit from 0 to 8.
pub open spec fn is_move(text: Seq<char>) -> bool {
    text.len() == 1 && '0' <= text[0] <= '8'
}

/// The number that the digit `c` stands for.
pub open spec fn digit_value(c: char) -> int {
    c as int - '0' as int
}

/// The digit that stands for the number `n`, for a number below ten.
pub open spec fn digit(n: int) -> char {
    ('0' as int + n) as char
}

impl CellIndex {
    /// Every cell index lies on the board.
    #[verifier::type_invariant]
    pub open spec fn on_board(self) -> bool {
        0 <= self@ < CELLS
    }

    /// The cell with the given number.
    pub fn new(index: u8) -> (cell: CellIndex)
        requires
            index < CELLS,
        ensures
            cell@ == index,
            cell.on_board(),
    {
        CellIndex(index)
    }

    /// The cell index in words: `cell index: ` and the number.
    pub fn to_string(&self) -> (text: String)
        ensures
            text@ == "cell index: "@.push(digit(self@)),
    {
        let number = match self.0 {
            0 => "0",
            1 => "1",
            2 => "2",
            3 => "3",
            4 => "4",
            5 => "5",
            6 => "6",
            7 => "7",
            _ => "8",
        };
        proof {
            use_type_invariant(self);
            reveal_strlit("0");
            reveal_strlit("1");
            reveal_strlit("2");
            reveal_strlit("3");
            reveal_strlit("4");
            reveal_strlit("5");
            reveal_strlit("6");
            reveal_strlit("7");
            reveal_strlit("8");
            assert(number@ =~= seq![digit(self@)]);
        }
        let text = String::from_str("cell index: ").concat(number);
        assert(text@ =~= "cell index: "@.push(digit(self@)));
        text
    }

    /// Row of the cell, counted from the top.
    pub fn row(self) -> (r: u8)
        ensures
            r == self@ / 3,
            r < 3,
    {
        proof {
            use_type_invariant(&self);
        }
        self.0 / 3
    }

    /// Column of the cell, counted from the left.
    pub fn column(self) -> (c: u8)
        ensures
            c == self@ % 3,
            c < 3,
    {
        proof {
            use_type_invariant(&self);
        }
        self.0 % 3
    }
}

impl std::str::FromStr for CellIndex {
    type Err = &'static str;

    /// Reads a move as a player types it. The text must be a single digit from 0 to 8,
    /// which is the number of the cell; anything else is an error that says so.
    fn from_str(source: &str) -> (parsed: Result<CellIndex, &'static str>)
        ensures
            is_move(source@) ==> parsed is Ok && parsed->Ok_0@ == digit_value(source@[0]),
            !is_move(source@) ==> parsed is Err && parsed->Err_0@ == INVALID_MOVE@,
    {
        if source.unicode_len() != 1 {
            return Err(INVALID_MOVE);
        }
        let first = source.get_char(0);
        if '0' <= first && first <= '8' {
            Ok(CellIndex((first as u8) - ('0' as u8)))
        } else {
            Err(INVALID_MOVE)
        }
    }
}

} // verus!
