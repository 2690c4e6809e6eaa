//! The board as text: seven lines of ASCII art.
//!
//! ```text
//! -------
//! |X| |O|
//! |-----|
//! | |X| |
//! |-----|
//! |O| |X|
//! -------
//! ```

use vstd::prelude::*;
use crate::bitboard::Bitboard;
use crate::cell::{Cell, CellIndex};

verus! {

/// The character of the top and bottom border, and of the rules between rows: `-`.
pub const DASH: u8 = 0x2d;

/// The character that separates the cells of a row: `|`.
pub const BAR: u8 = 0x7c;

/// The character that ends a line: a line feed.
pub const LINE_END: u8 = 0x0a;

/// Number of characters in a line of the drawing, the line's end not counted.
pub const LINE_WIDTH: usize = 7;

/// The line above and below the board.
pub open spec fn border() -> Seq<u8> {
    Seq::new(LINE_WIDTH as nat, |i: int| DASH)
}

/// The line between two rows of the board.
pub open spec fn rule() -> Seq<u8> {
    seq![BAR, DASH, DASH, DASH, DASH, DASH, BAR]
}

/// The line that shows row `row` of `board`.
pub open spec fn row_line(board: Seq<Cell>, row: int) -> Seq<u8> {
    seq![
        BAR,
        board[3 * row].symbol(),
        BAR,
        board[3 * row + 1].symbol(),
        BAR,
        board[3 * row + 2].symbol(),
        BAR,
    ]
}

/// The drawing of `board`: its seven lines, each but the last followed by a line end.
pub open spec fn drawing(board: Seq<Cell>) -> Seq<u8> {
    border().push(LINE_END) + row_line(board, 0).push(LINE_END) + rule().push(LINE_END)
        + row_line(board, 1).push(LINE_END) + rule().push(LINE_END) + row_line(board, 2).push(
        LINE_END,
    ) + border()
}

/// Appends the border line to `out`.
fn push_border(out: &mut Vec<u8>)
    ensures
        final(out)@ == old(out)@ + border(),
{
    let mut i: usize = 0;
    while i < LINE_WIDTH
        invariant
            i <= LINE_WIDTH,
            out@ == old(out)@ + Seq::new(i as nat, |k: int| DASH),
        decreases LINE_WIDTH - i,
    {
        out.push(DASH);
        i += 1;
    }
}

/// Appends the line between two rows to `out`.
fn push_rule(out: &mut Vec<u8>)
    ensures
        final(out)@ == old(out)@ + rule(),
{
    out.push(BAR);
    let mut i: usize = 2;
    while i < LINE_WIDTH
        invariant
            2 <= i <= LINE_WIDTH,
            out@ == old(out)@.push(BAR) + Seq::new((i - 2) as nat, |k: int| DASH),
        decreases LINE_WIDTH - i,
    {
        out.push(DASH);
        i += 1;
    }
    out.push(BAR);
}

/// Appends the line that shows row `row` of `board` to `out`.
fn push_row(board: Bitboard, row: u8, out: &mut Vec<u8>)
    requires
        row < 3,
    ensures
        final(out)@ == old(out)@ + row_line(board@, row as int),
{
    out.push(BAR);
    out.push(board.field(CellIndex::new(3 * row)).symbol());
    out.push(BAR);
    out.push(board.field(CellIndex::new(3 * row + 1)).symbol());
    out.push(BAR);
    out.push(board.field(CellIndex::new(3 * row + 2)).symbol());
    out.push(BAR);
    assert(out@ =~= old(out)@ + row_line(board@, row as int));
}

/// Appends the drawing of `board` to `out`.
pub fn draw(board: Bitboard, out: &mut Vec<u8>)
    ensures
        final(out)@ == old(out)@ + drawing(board@),
{
    push_border(out);
    out.push(LINE_END);
    push_row(board, 0, out);
    out.push(LINE_END);
    push_rule(out);
    out.push(LINE_END);
    push_row(board, 1, out);
    out.push(LINE_END);
    push_rule(out);
    out.push(LINE_END);
    push_row(board, 2, out);
    out.push(LINE_END);
    push_border(out);
    assert(out@ =~= old(out)@ + drawing(board@));
}

} // verus!
