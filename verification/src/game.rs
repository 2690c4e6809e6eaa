//! The game: whose turn it is, which moves are legal, and when play has ended.
//!
//! A game stores its board and nothing else. The state of play is derived from the
//! number of stones and from the test for a winning line each time it is asked for.

use vstd::prelude::*;
use crate::bitboard::Bitboard;
use crate::board::{
    empty_board, has_line, has_winning_line, lemma_empty_board, lemma_stone_count_update,
    stone_count, stones_below,
};
use crate::cell::{Cell, CellIndex, CELLS};
use crate::render::{draw, drawing};
use crate::rules::{
    after_move, can_play, legal, lemma_reachable_after_move, lemma_winner_holds_line, mover,
    reachable, replay, state_of,
};

verus! {

/// State of play.
#[derive(Clone, Copy, PartialEq, Eq, Debug, Structural)]
pub enum TicTacToeState {
    /// Player one has completed a line.
    VictoryPlayerOne,
    /// Player two has completed a line.
    VictoryPlayerTwo,
    /// The board is full and nobody has completed a line.
    Draw,
    /// Player one is to move.
    TurnPlayerOne,
    /// Player two is to move.
    TurnPlayerTwo,
}

impl TicTacToeState {
    /// Whether play has ended: with a victory or with a draw.
    pub open spec fn terminal(self) -> bool {
        self is VictoryPlayerOne || self is VictoryPlayerTwo || self is Draw
    }

    /// `true` if the game is finished, `false` if it is still going on.
    #[verifier::when_used_as_spec(terminal)]
    pub fn is_terminal(self) -> (ended: bool)
        ensures
            ended == self.terminal(),
    {
        match self {
            TicTacToeState::VictoryPlayerOne
            | TicTacToeState::VictoryPlayerTwo
            | TicTacToeState::Draw => true,
            TicTacToeState::TurnPlayerOne | TicTacToeState::TurnPlayerTwo => false,
        }
    }
}

/// A game of Tic Tac Toe.
#[derive(Clone, Copy, PartialEq, Eq, Debug, Hash, Structural)]
pub struct TicTacToe(Bitboard);

impl View for TicTacToe {
    type V = Seq<Cell>;

    /// The nine cells of the board, row by row.
    open spec fn view(&self) -> Seq<Cell> {
        self.board()@
    }
}

impl TicTacToe {
    /// The board of the game.
    pub closed spec fn board(self) -> Bitboard {
        self.0
    }

    /// The board of a game is one that legal play leads to.
    #[verifier::type_invariant]
    closed spec fn in_play(self) -> bool {
        reachable(self.0@)
    }

    /// A game in which no stone has been placed yet.
    pub fn new() -> (game: TicTacToe)
        ensures
            game@ == empty_board(),
            state_of(game@) is TurnPlayerOne,
            reachable(game@),
    {
        proof {
            lemma_empty_board();
        }
        let board = Bitboard::new();
        proof {
            assert(legal(Seq::<int>::empty()) && replay(Seq::<int>::empty()) == board@);
        }
        TicTacToe(board)
    }

    /// Appends the drawing of the board to `out`: seven lines of seven characters,
    /// with a blank for an empty cell, `X` for player one and `O` for player two, and
    /// no line end after the last line.
    pub fn print_to(self, out: &mut Vec<u8>)
        ensures
            final(out)@ == old(out)@ + drawing(self@),
    {
        draw(self.0, out)
    }

    /// All cells that hold no stone, in ascending order.
    pub fn open_fields(&self) -> (fields: Vec<CellIndex>)
        ensures
            fields@.len() == CELLS - stone_count(self@),
            forall|i: int| 0 <= i < fields@.len() ==> (#[trigger] fields@[i]).on_board(),
            forall|i: int| 0 <= i < fields@.len() ==> self@[(#[trigger] fields@[i])@] is Empty,
            forall|i: int, j: int|
                0 <= i < j < fields@.len() ==> (#[trigger] fields@[i])@ < (#[trigger] fields@[j])@,
            forall|p: int|
                0 <= p < CELLS && (#[trigger] self@[p]) is Empty ==> exists|i: int|
                    0 <= i < fields@.len() && (#[trigger] fields@[i])@ == p,
            !state_of(self@).terminal() ==> forall|i: int|
                0 <= i < fields@.len() ==> can_play(self@, (#[trigger] fields@[i])@),
    {
        let mut fields: Vec<CellIndex> = Vec::new();
        let mut position: u8 = 0;
        while position < CELLS
            invariant
                position <= CELLS,
                self@.len() == CELLS,
                fields@.len() == position - stones_below(self@, position as int),
                forall|i: int| 0 <= i < fields@.len() ==> 0 <= (#[trigger] fields@[i])@ < position,
                forall|i: int| 0 <= i < fields@.len() ==> self@[(#[trigger] fields@[i])@] is Empty,
                forall|i: int, j: int|
                    0 <= i < j < fields@.len() ==> (#[trigger] fields@[i])@ < (
                    #[trigger] fields@[j])@,
                forall|p: int|
                    0 <= p < position && (#[trigger] self@[p]) is Empty ==> exists|i: int|
                        0 <= i < fields@.len() && (#[trigger] fields@[i])@ == p,
            decreases CELLS - position,
        {
            let index = CellIndex::new(position);
            let ghost before = fields@;
            if self.0.field(index) == Cell::Empty {
                fields.push(index);
            }
            proof {
                assert forall|p: int|
                    0 <= p <= position && (#[trigger] self@[p]) is Empty implies exists|i: int|
                    0 <= i < fields@.len() && (#[trigger] fields@[i])@ == p by {
                    if p < position {
                        let i = choose|i: int| 0 <= i < before.len() && (#[trigger] before[i])@ == p;
                        assert(fields@[i]@ == p);
                    } else {
                        assert(fields@[fields@.len() - 1]@ == p);
                    }
                }
            }
            position += 1;
        }
        fields
    }

    /// The state of play: whose turn it is, or how the game has ended.
    pub fn state(&self) -> (state: TicTacToeState)
        ensures
            state == state_of(self@),
            state is TurnPlayerOne <==> stone_count(self@) % 2 == 0 && !has_winning_line(self@),
            state is TurnPlayerTwo <==> stone_count(self@) % 2 == 1 && !has_winning_line(self@)
                && stone_count(self@) != CELLS,
            state is Draw <==> stone_count(self@) == CELLS && !has_winning_line(self@),
            state is VictoryPlayerOne <==> has_line(self@, Cell::PlayerOne),
            state is VictoryPlayerTwo <==> has_line(self@, Cell::PlayerTwo),
            reachable(self@),
    {
        proof {
            use_type_invariant(self);
            let moves = choose|moves: Seq<int>| legal(moves) && #[trigger] replay(moves) == self@;
            lemma_winner_holds_line(moves);
        }
        let stones = self.0.stones();
        let player = stones % 2;
        match (self.0.victory(), player) {
            (true, 0) => TicTacToeState::VictoryPlayerTwo,
            (true, 1) => TicTacToeState::VictoryPlayerOne,
            (false, 0) => TicTacToeState::TurnPlayerOne,
            _ => {
                if stones == CELLS {
                    TicTacToeState::Draw
                } else {
                    TicTacToeState::TurnPlayerTwo
                }
            },
        }
    }

    /// Places a stone for the player whose turn it is in the cell `mov`. The cell must
    /// be empty and the game not yet finished.
    pub fn play_move(&mut self, mov: &CellIndex)
        requires
            can_play(old(self)@, mov@),
        ensures
            final(self)@ == after_move(old(self)@, mov@),
            stone_count(final(self)@) == stone_count(old(self)@) + 1,
            reachable(final(self)@),
    {
        proof {
            lemma_stone_count_update(self@, mov@, mover(self@));
        }
        let new_state = match self.state() {
            TicTacToeState::TurnPlayerOne => Cell::PlayerOne,
            TicTacToeState::TurnPlayerTwo => Cell::PlayerTwo,
            _ => unreached(),
        };
        proof {
            use_type_invariant(&*self);
            lemma_reachable_after_move(self@, mov@);
        }
        let mut board = self.0;
        board.mark_cell(*mov, new_state);
        self.0 = board;
    }
}

impl Default for TicTacToe {
    /// A game in which no stone has been placed yet.
    fn default() -> (game: TicTacToe)
        ensures
            game@ == empty_board(),
    {
        TicTacToe::new()
    }
}

} // verus!
