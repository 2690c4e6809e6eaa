//! The board as mathematics: a sequence of nine cells, row by row.

use vstd::prelude::*;
use crate::cell::{Cell, CELLS};

verus! {

/// The board without any stone.
pub open spec fn empty_board() -> Seq<Cell> {
    Seq::new(CELLS as nat, |p: int| Cell::Empty)
}

/// Number of stones that a cell holds: one or none.
pub open spec fn stones_on(cell: Cell) -> nat {
    if cell is Empty {
        0
    } else {
        1
    }
}

/// Number of stones, of either player, on the first `n` cells of `board`.
pub open spec fn stones_below(board: Seq<Cell>, n: int) -> nat
    decreases n,
{
    if n <= 0 {
        0
    } else {
        stones_below(board, n - 1) + stones_on(board[n - 1])
    }
}

/// Number of stones, of either player, on `board`.
pub open spec fn stone_count(board: Seq<Cell>) -> nat {
    stones_below(board, board.len() as int)
}

/// Whether stones of `player` stand on all three of the cells `a`, `b` and `c`.
pub open spec fn holds_line(board: Seq<Cell>, player: Cell, a: int, b: int, c: int) -> bool {
    board[a] == player && board[b] == player && board[c] == player
}

/// Whether stones of `player` fill some row, column or diagonal of `board`.
pub open spec fn has_line(board: Seq<Cell>, player: Cell) -> bool {
    ||| holds_line(board, player, 0, 1, 2)
    ||| holds_line(board, player, 3, 4, 5)
    ||| holds_line(board, player, 6, 7, 8)
    ||| holds_line(board, player, 0, 3, 6)
    ||| holds_line(board, player, 1, 4, 7)
    ||| holds_line(board, player, 2, 5, 8)
    ||| holds_line(board, player, 0, 4, 8)
    ||| holds_line(board, player, 2, 4, 6)
}

/// Whether one of the players has filled a row, a column or a diagonal of `board`.
pub open spec fn has_winning_line(board: Seq<Cell>) -> bool {
    has_line(board, Cell::PlayerOne) || has_line(board, Cell::PlayerTwo)
}

/// Among `n` cells there are at most `n` stones.
pub proof fn lemma_stones_below_bound(board: Seq<Cell>, n: int)
    requires
        0 <= n,
    ensures
        stones_below(board, n) <= n,
    decreases n,
{
    if n > 0 {
        lemma_stones_below_bound(board, n - 1);
    }
}

/// A change to the cell at position `p` changes the count of the first `n` cells by
/// what that cell gains or loses, if it is one of them, and not at all if it is not.
pub proof fn lemma_stones_below_update(board: Seq<Cell>, n: int, p: int, v: Cell)
    requires
        0 <= n <= board.len(),
        0 <= p < board.len(),
    ensures
        stones_below(board.update(p, v), n) == if p < n {
            stones_below(board, n) - stones_on(board[p]) + stones_on(v)
        } else {
            stones_below(board, n) as int
        },
    decreases n,
{
    if n > 0 {
        lemma_stones_below_update(board, n - 1, p, v);
    }
}

/// A change to one cell changes the number of stones by what that cell gains or loses:
/// a stone on an empty cell adds one.
pub proof fn lemma_stone_count_update(board: Seq<Cell>, p: int, v: Cell)
    requires
        0 <= p < board.len(),
    ensures
        stone_count(board.update(p, v)) == stone_count(board) - stones_on(board[p]) + stones_on(v),
{
    lemma_stones_below_update(board, board.len() as int, p, v);
}

/// The empty board holds no stone and no line.
pub proof fn lemma_empty_board()
    ensures
        stone_count(empty_board()) == 0,
        !has_winning_line(empty_board()),
{
    reveal_with_fuel(stones_below, 10);
}

} // verus!
