//! The rules as mathematics: the state of play on a board, the legal moves, and what
//! holds of every board that legal play can reach.

use vstd::prelude::*;
use crate::board::{
    empty_board, has_line, has_winning_line, lemma_empty_board, lemma_stone_count_update,
    stone_count,
};
use crate::cell::{Cell, CELLS};
use crate::game::TicTacToeState;

verus! {

/// The state of play on `board`. Player one moves first, so with an even number of
/// stones it is player one's turn. A winning line is taken to belong to the player who
/// placed the last stone.
pub open spec fn state_of(board: Seq<Cell>) -> TicTacToeState {
    let stones = stone_count(board);
    if has_winning_line(board) {
        if stones % 2 == 1 {
            TicTacToeState::VictoryPlayerOne
        } else {
            TicTacToeState::VictoryPlayerTwo
        }
    } else if stones % 2 == 0 {
        TicTacToeState::TurnPlayerOne
    } else if stones == CELLS {
        TicTacToeState::Draw
    } else {
        TicTacToeState::TurnPlayerTwo
    }
}

/// The stone of the player who is to move on `board`.
pub open spec fn mover(board: Seq<Cell>) -> Cell {
    if stone_count(board) % 2 == 0 {
        Cell::PlayerOne
    } else {
        Cell::PlayerTwo
    }
}

/// Whether a stone may be placed at position `p`: play has not ended, and the cell is
/// empty.
pub open spec fn can_play(board: Seq<Cell>, p: int) -> bool {
    &&& 0 <= p < CELLS
    &&& board[p] is Empty
    &&& !state_of(board).terminal()
}

/// The board after the player to move has placed a stone at position `p`.
pub open spec fn after_move(board: Seq<Cell>, p: int) -> Seq<Cell> {
    board.update(p, mover(board))
}

/// The board after the moves `moves`, made in turn from the empty board.
pub open spec fn replay(moves: Seq<int>) -> Seq<Cell>
    decreases moves.len(),
{
    if moves.len() == 0 {
        empty_board()
    } else {
        after_move(replay(moves.drop_last()), moves.last())
    }
}

/// Whether each of the moves `moves` may be made on the board that the moves before it
/// have left.
pub open spec fn legal(moves: Seq<int>) -> bool
    decreases moves.len(),
{
    moves.len() == 0 || (legal(moves.drop_last()) && can_play(
        replay(moves.drop_last()),
        moves.last(),
    ))
}

/// Whether legal play from the empty board can lead to `board`.
pub open spec fn reachable(board: Seq<Cell>) -> bool {
    exists|moves: Seq<int>| legal(moves) && #[trigger] replay(moves) == board
}

/// A legal move on a board that play can reach leads to a board that play can reach.
pub proof fn lemma_reachable_after_move(board: Seq<Cell>, p: int)
    requires
        reachable(board),
        can_play(board, p),
    ensures
        reachable(after_move(board, p)),
{
    let moves = choose|moves: Seq<int>| legal(moves) && #[trigger] replay(moves) == board;
    let longer = moves.push(p);
    assert(longer.drop_last() =~= moves);
    assert(legal(longer) && replay(longer) == after_move(board, p));
}

/// Every move places one stone: after any legal moves the board holds as many stones
/// as moves were made.
pub proof fn lemma_stones_count_moves(moves: Seq<int>)
    requires
        legal(moves),
    ensures
        replay(moves).len() == CELLS,
        stone_count(replay(moves)) == moves.len(),
    decreases moves.len(),
{
    if moves.len() == 0 {
        lemma_empty_board();
    } else {
        let before = replay(moves.drop_last());
        lemma_stones_count_moves(moves.drop_last());
        lemma_stone_count_update(before, moves.last(), mover(before));
    }
}

/// A finished game takes no further move: once a line is complete or the board is
/// full, no position can be played.
pub proof fn lemma_finished_game_takes_no_move(board: Seq<Cell>, p: int)
    requires
        state_of(board).terminal(),
    ensures
        !can_play(board, p),
{
}

/// Legal play cannot go on after the game has ended, whatever the next move.
pub proof fn lemma_no_move_after_the_end(moves: Seq<int>, p: int)
    requires
        legal(moves),
        state_of(replay(moves)).terminal(),
    ensures
        !legal(moves.push(p)),
{
    assert(moves.push(p).drop_last() =~= moves);
}

/// A legal move adds one stone, and the turn does not stay with the player who made
/// it.
pub proof fn lemma_turns_alternate(board: Seq<Cell>, p: int)
    requires
        board.len() == CELLS,
        can_play(board, p),
    ensures
        stone_count(after_move(board, p)) == stone_count(board) + 1,
        state_of(board) is TurnPlayerOne ==> !(state_of(after_move(board, p)) is TurnPlayerOne),
        state_of(board) is TurnPlayerTwo ==> !(state_of(after_move(board, p)) is TurnPlayerTwo),
{
    lemma_stone_count_update(board, p, mover(board));
}

/// A victory goes to the player who holds the line. The state of play names the
/// winner by the number of stones alone; in legal play that is the player whose stones
/// fill a line, and the other player has none.
pub proof fn lemma_winner_holds_line(moves: Seq<int>)
    requires
        legal(moves),
    ensures
        state_of(replay(moves)) is VictoryPlayerOne ==> has_line(replay(moves), Cell::PlayerOne)
            && !has_line(replay(moves), Cell::PlayerTwo),
        state_of(replay(moves)) is VictoryPlayerTwo ==> has_line(replay(moves), Cell::PlayerTwo)
            && !has_line(replay(moves), Cell::PlayerOne),
{
    if moves.len() == 0 {
        lemma_empty_board();
    } else {
        let before = replay(moves.drop_last());
        lemma_stones_count_moves(moves.drop_last());
        lemma_stone_count_update(before, moves.last(), mover(before));
        assert(!has_winning_line(before));
    }
}

} // verus!
