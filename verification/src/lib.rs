//! Rules engine for a two-player game of Tic Tac Toe on a 3x3 board.
//!
//! The board is a packed bit set ([`Bitboard`]); the game derives whose turn it is
//! and whether play has ended from the board alone.

pub mod bitboard;
pub mod bits;
pub mod board;
pub mod cell;
pub mod game;
pub mod render;
pub mod rules;

pub use bitboard::Bitboard;
pub use cell::{Cell, CellIndex};
pub use game::{TicTacToe, TicTacToeState};
