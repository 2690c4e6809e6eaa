//! The packed board: both players' stones in one 32-bit word.
//!
//! The low half of the word holds the stones of player one, the high half those of
//! player two. Within a half, each row of the board takes four bits: three cells and
//! one bit that always stays clear, so that a shift along a row, a column or a
//! diagonal never carries a stone from the end of one row into the next.
//!
//! ```text
//! player one          player two
//!  0  1  2  .         16 17 18  .
//!  4  5  6  .         20 21 22  .
//!  8  9 10  .         24 25 26  .
//! ```

use vstd::prelude::*;
use crate::bits::{has_bit, ones_below, WORD_BITS};
use crate::board::{
    empty_board, has_winning_line, lemma_stones_below_bound, stone_count, stones_below, stones_on,
};
use crate::cell::{Cell, CellIndex, CELLS};

verus! {

/// Bits of a row in the packed board: three cells and one bit of padding.
pub const ROW_BITS: u8 = 4;

/// Distance in bits between a cell of player one and the same cell of player two.
pub const PLAYER_BITS: u8 = 16;

/// The bits that may hold a stone; all others are padding.
pub const STONE_BITS: u32 = 0x0777_0777;

/// Bit that a cell of player one takes in the packed board.
spec fn slot(p: int) -> u32 {
    ((p / 3) * ROW_BITS + p % 3) as u32
}

/// A word is a board if no padding bit is set and no cell holds a stone of both players.
spec fn is_board(bits: u32) -> bool {
    &&& bits & !STONE_BITS == 0
    &&& bits & (bits >> PLAYER_BITS) == 0
}

/// What the packed board `bits` holds at position `p`.
spec fn cell_of(bits: u32, p: int) -> Cell {
    if has_bit(bits, slot(p)) {
        Cell::PlayerOne
    } else if has_bit(bits, (slot(p) + PLAYER_BITS) as u32) {
        Cell::PlayerTwo
    } else {
        Cell::Empty
    }
}

/// The word without stones is a board, and none of its bits is set.
proof fn lemma_no_bits()
    by (bit_vector)
    ensures
        is_board(0),
        forall|i: u32| !has_bit(0, i),
{
}

/// Testing a word against the mask of a cell reads the cell's bit, for either player.
proof fn lemma_mask_of_slot(x: u32, s: u32)
    by (bit_vector)
    requires
        s < PLAYER_BITS,
    ensures
        ((1u32 << s) & x != 0) == has_bit(x, s),
        (((1u32 << s) << PLAYER_BITS) & x != 0) == has_bit(x, (s + PLAYER_BITS) as u32),
{
}

/// A bit that a cell of player one may take: below the third row's end and no padding.
spec fn is_slot(s: u32) -> bool {
    s < 3 * ROW_BITS && s % (ROW_BITS as u32) != 3
}

/// Every position has a slot, and two positions share none.
proof fn lemma_slots()
    ensures
        forall|p: int| 0 <= p < CELLS ==> is_slot(#[trigger] slot(p)),
        forall|p: int, q: int|
            0 <= p < CELLS && 0 <= q < CELLS && #[trigger] slot(p) == #[trigger] slot(q) ==> p == q,
{
    assert(slot(0) == 0 && slot(1) == 1 && slot(2) == 2);
    assert(slot(3) == 4 && slot(4) == 5 && slot(5) == 6);
    assert(slot(6) == 8 && slot(7) == 9 && slot(8) == 10);
}

/// On a board no cell holds a stone of both players.
proof fn lemma_one_stone(x: u32, s: u32)
    by (bit_vector)
    requires
        is_board(x),
        s < PLAYER_BITS,
    ensures
        !(has_bit(x, s) && has_bit(x, (s + PLAYER_BITS) as u32)),
{
}

/// Setting the bit of player one at slot `s` changes that cell alone, and keeps the
/// word a board where player two does not hold the cell.
proof fn lemma_set_one(x: u32, s: u32, t: u32)
    by (bit_vector)
    requires
        is_slot(s),
        is_slot(t),
        is_board(x),
        !has_bit(x, (s + PLAYER_BITS) as u32),
    ensures
        has_bit(x | (1u32 << s), t) == (t == s || has_bit(x, t)),
        has_bit(x | (1u32 << s), (t + PLAYER_BITS) as u32) == has_bit(x, (t + PLAYER_BITS) as u32),
        is_board(x | (1u32 << s)),
{
}

/// Setting the bit of player two at slot `s` changes that cell alone, and keeps the
/// word a board where player one does not hold the cell.
proof fn lemma_set_two(x: u32, s: u32, t: u32)
    by (bit_vector)
    requires
        is_slot(s),
        is_slot(t),
        is_board(x),
        !has_bit(x, s),
    ensures
        has_bit(x | ((1u32 << s) << PLAYER_BITS), t) == has_bit(x, t),
        has_bit(x | ((1u32 << s) << PLAYER_BITS), (t + PLAYER_BITS) as u32) == (t == s || has_bit(
            x,
            (t + PLAYER_BITS) as u32,
        )),
        is_board(x | ((1u32 << s) << PLAYER_BITS)),
{
}

/// Clearing both players' bits at slot `s` empties that cell alone, and keeps the word
/// a board.
proof fn lemma_clear(x: u32, s: u32, t: u32)
    by (bit_vector)
    requires
        is_slot(s),
        is_slot(t),
        is_board(x),
    ensures
        has_bit(x & !((1u32 << s) | ((1u32 << s) << PLAYER_BITS)), t) == (t != s && has_bit(x, t)),
        has_bit(x & !((1u32 << s) | ((1u32 << s) << PLAYER_BITS)), (t + PLAYER_BITS) as u32) == (t
            != s && has_bit(x, (t + PLAYER_BITS) as u32)),
        is_board(x & !((1u32 << s) | ((1u32 << s) << PLAYER_BITS))),
{
}

/// The word that holds `bits` with the cell at position `p` marked as `v`.
spec fn marked(bits: u32, p: int, v: Cell) -> u32 {
    let mask = 1u32 << slot(p);
    match v {
        Cell::PlayerOne => bits | mask,
        Cell::PlayerTwo => bits | (mask << PLAYER_BITS),
        Cell::Empty => bits & !(mask | (mask << PLAYER_BITS)),
    }
}

/// Marking a cell that does not hold the other player's stone changes that cell alone
/// and leaves a board.
proof fn lemma_marked(x: u32, p: int, v: Cell, q: int)
    requires
        is_board(x),
        0 <= p < CELLS,
        0 <= q < CELLS,
        v is PlayerOne ==> cell_of(x, p) !is PlayerTwo,
        v is PlayerTwo ==> cell_of(x, p) !is PlayerOne,
    ensures
        is_board(marked(x, p, v)),
        cell_of(marked(x, p, v), q) == if q == p {
            v
        } else {
            cell_of(x, q)
        },
{
    lemma_slots();
    lemma_one_stone(x, slot(p));
    match v {
        Cell::PlayerOne => lemma_set_one(x, slot(p), slot(q)),
        Cell::PlayerTwo => lemma_set_two(x, slot(p), slot(q)),
        Cell::Empty => lemma_clear(x, slot(p), slot(q)),
    }
}

/// On a board, a cell belongs to a player exactly if that player's bit of it is set.
proof fn lemma_cell_bits(x: u32, p: int)
    requires
        is_board(x),
        0 <= p < CELLS,
    ensures
        cell_of(x, p) is PlayerOne <==> has_bit(x, slot(p)),
        cell_of(x, p) is PlayerTwo <==> has_bit(x, (slot(p) + PLAYER_BITS) as u32),
{
    lemma_slots();
    lemma_one_stone(x, slot(p));
}

/// Whether the bits `a`, `b` and `c` of `x` are all set.
spec fn has_bits(x: u32, a: u32, b: u32, c: u32) -> bool {
    has_bit(x, a) && has_bit(x, b) && has_bit(x, c)
}

/// The shifts along rows, columns and both diagonals meet in a set bit exactly where
/// three stones of one player stand in a line. The padding keeps a shift from joining
/// the end of one row to the start of the next, and one player's stones to the other's.
proof fn lemma_shifted_lines(x: u32)
    by (bit_vector)
    requires
        is_board(x),
    ensures
        (0 != (x & (x >> 1) & (x >> 2)) | (x & (x >> 4) & (x >> 8)) | (x & (x >> 5) & (x >> 10)) | (
        x & (x >> 3) & (x >> 6))) <==> {
            ||| has_bits(x, 0, 1, 2)
            ||| has_bits(x, 4, 5, 6)
            ||| has_bits(x, 8, 9, 10)
            ||| has_bits(x, 0, 4, 8)
            ||| has_bits(x, 1, 5, 9)
            ||| has_bits(x, 2, 6, 10)
            ||| has_bits(x, 0, 5, 10)
            ||| has_bits(x, 2, 5, 8)
            ||| has_bits(x, 16, 17, 18)
            ||| has_bits(x, 20, 21, 22)
            ||| has_bits(x, 24, 25, 26)
            ||| has_bits(x, 16, 20, 24)
            ||| has_bits(x, 17, 21, 25)
            ||| has_bits(x, 18, 22, 26)
            ||| has_bits(x, 16, 21, 26)
            ||| has_bits(x, 18, 21, 24)
        },
{
}

/// On a board no padding bit is set.
proof fn lemma_padding_is_clear(x: u32)
    by (bit_vector)
    requires
        is_board(x),
    ensures
        !has_bit(x, 3) && !has_bit(x, 7) && !has_bit(x, 11),
        !has_bit(x, 12) && !has_bit(x, 13) && !has_bit(x, 14) && !has_bit(x, 15),
        !has_bit(x, 19) && !has_bit(x, 23) && !has_bit(x, 27),
        !has_bit(x, 28) && !has_bit(x, 29) && !has_bit(x, 30) && !has_bit(x, 31),
{
}

/// One if bit `i` of `x` is set, zero if not.
spec fn bit_value(x: u32, i: u32) -> nat {
    if has_bit(x, i) {
        1
    } else {
        0
    }
}

/// Number of stones that the two players together have on the cell at position `p`.
spec fn stones_at(x: u32, p: int) -> nat {
    bit_value(x, slot(p)) + bit_value(x, (slot(p) + PLAYER_BITS) as u32)
}

/// Without padding, the set bits of the lower half are those of player one's cells.
proof fn lemma_ones_of_player_one(x: u32)
    requires
        is_board(x),
    ensures
        ones_below(x, PLAYER_BITS as u32) == bit_value(x, 0) + bit_value(x, 1) + bit_value(x, 2)
            + bit_value(x, 4) + bit_value(x, 5) + bit_value(x, 6) + bit_value(x, 8) + bit_value(
            x,
            9,
        ) + bit_value(x, 10),
{
    lemma_padding_is_clear(x);
    reveal_with_fuel(ones_below, 17);
}

/// Without padding, the set bits of the upper half are those of player two's cells.
proof fn lemma_ones_of_player_two(x: u32)
    requires
        is_board(x),
    ensures
        ones_below(x, WORD_BITS) == ones_below(x, PLAYER_BITS as u32) + bit_value(x, 16)
            + bit_value(x, 17) + bit_value(x, 18) + bit_value(x, 20) + bit_value(x, 21)
            + bit_value(x, 22) + bit_value(x, 24) + bit_value(x, 25) + bit_value(x, 26),
{
    lemma_padding_is_clear(x);
    reveal_with_fuel(ones_below, 17);
}

/// On a board, a cell with a stone has one bit set, and an empty cell none.
proof fn lemma_stones_at(x: u32, p: int)
    requires
        is_board(x),
        0 <= p < CELLS,
    ensures
        stones_at(x, p) == stones_on(cell_of(x, p)),
{
    lemma_cell_bits(x, p);
}

/// On a board every set bit is a stone: the set bits are as many as the stones.
proof fn lemma_ones_are_stones(x: u32)
    requires
        is_board(x),
    ensures
        ones_below(x, WORD_BITS) == stones_below(
            Seq::new(CELLS as nat, |p: int| cell_of(x, p)),
            CELLS as int,
        ),
{
    let board = Seq::new(CELLS as nat, |p: int| cell_of(x, p));
    assert(stones_below(board, 9) == stones_at(x, 0) + stones_at(x, 1) + stones_at(x, 2)
        + stones_at(x, 3) + stones_at(x, 4) + stones_at(x, 5) + stones_at(x, 6) + stones_at(x, 7)
        + stones_at(x, 8)) by {
        assert forall|p: int| 0 <= p < CELLS implies stones_at(x, p) == stones_on(
            #[trigger] board[p],
        ) by {
            lemma_stones_at(x, p);
        }
        reveal_with_fuel(stones_below, 10);
    }
    lemma_ones_of_player_one(x);
    lemma_ones_of_player_two(x);
    lemma_slots();
}

/// Both players' stones on a 3x3 board, packed into one machine word.
///
/// Seen from outside, a board is the sequence of its nine cells, row by row.
#[derive(Clone, Copy, PartialEq, Eq, Debug, Hash, Structural)]
pub struct Bitboard(u32);

impl View for Bitboard {
    type V = Seq<Cell>;

    /// The nine cells of the board, row by row.
    open spec fn view(&self) -> Seq<Cell> {
        Seq::new(CELLS as nat, |p: int| self.cell(p))
    }
}

impl Bitboard {
    /// What the board holds at position `p`.
    pub closed spec fn cell(self, p: int) -> Cell {
        cell_of(self.0, p)
    }

    /// No padding bit is set, and no cell holds a stone of both players.
    #[verifier::type_invariant]
    closed spec fn well_formed(self) -> bool {
        is_board(self.0)
    }

    /// An empty board.
    pub fn new() -> (board: Bitboard)
        ensures
            board@ == empty_board(),
    {
        proof {
            lemma_no_bits();
        }
        let board = Bitboard(0);
        assert(board@ =~= empty_board());
        board
    }

    /// Marks the cell at `index` with `new_state`, whatever the rules of the game say
    /// of such a move. A cell holds one stone at most, and it is for the caller to see
    /// to it: a cell is not handed from one player to the other without being emptied
    /// first.
    pub fn mark_cell(&mut self, index: CellIndex, new_state: Cell)
        requires
            new_state is PlayerOne ==> old(self)@[index@] !is PlayerTwo,
            new_state is PlayerTwo ==> old(self)@[index@] !is PlayerOne,
        ensures
            final(self)@ == old(self)@.update(index@, new_state),
            final(self)@[index@] == new_state,
    {
        let shift: u8 = index.row() * ROW_BITS + index.column();
        // A bitmask which is one at the cell to change.
        let bitmask_cell: u32 = 1u32 << shift;
        proof {
            use_type_invariant(&index);
            use_type_invariant(&*self);
            assert(shift == slot(index@));
            assert forall|q: int| 0 <= q < CELLS implies #[trigger] cell_of(
                marked(self.0, index@, new_state),
                q,
            ) == old(self)@.update(index@, new_state)[q] by {
                lemma_marked(self.0, index@, new_state, q);
            }
            lemma_marked(self.0, index@, new_state, index@);
        }
        match new_state {
            Cell::PlayerOne => self.0 |= bitmask_cell,
            Cell::PlayerTwo => self.0 |= bitmask_cell << PLAYER_BITS,
            Cell::Empty => self.0 &= !(bitmask_cell | (bitmask_cell << PLAYER_BITS)),
        }
        assert(self@ =~= old(self)@.update(index@, new_state));
    }

    /// Whether one player has three stones in a row, a column or a diagonal.
    pub fn victory(self) -> (won: bool)
        ensures
            won == has_winning_line(self@),
    {
        let col: u8 = 1;
        let row: u8 = ROW_BITS;
        proof {
            use_type_invariant(&self);
            lemma_slots();
            lemma_shifted_lines(self.0);
            assert forall|p: int| 0 <= p < CELLS implies {
                &&& #[trigger] cell_of(self.0, p) is PlayerOne <==> has_bit(self.0, slot(p))
                &&& cell_of(self.0, p) is PlayerTwo <==> has_bit(
                    self.0,
                    (slot(p) + PLAYER_BITS) as u32,
                )
            } by {
                lemma_cell_bits(self.0, p);
            }
        }
        // horizontal or vertical or diagonal 1 or diagonal 2
        0 != (self.0 & (self.0 >> col) & (self.0 >> (2 * col))) | (self.0 & (self.0 >> row) & (
        self.0 >> (2 * row))) | (self.0 & (self.0 >> (col + row)) & (self.0 >> (2 * (col + row))))
            | (self.0 & (self.0 >> (row - col)) & (self.0 >> (2 * (row - col))))
    }

    /// Number of stones on the board, of both players together.
    pub fn stones(self) -> (n: u8)
        ensures
            n == stone_count(self@),
    {
        proof {
            use_type_invariant(&self);
            lemma_ones_are_stones(self.0);
            assert(self@ =~= Seq::new(CELLS as nat, |p: int| cell_of(self.0, p)));
            lemma_stones_below_bound(self@, CELLS as int);
        }
        self.0.count_ones() as u8
    }

    /// The state of the cell at `index`.
    pub fn field(self, index: CellIndex) -> (cell: Cell)
        ensures
            cell == self@[index@],
    {
        let shift: u8 = index.row() * ROW_BITS + index.column();
        let bitmask: u32 = 1u32 << shift;
        proof {
            use_type_invariant(&index);
            assert(shift == slot(index@));
            lemma_mask_of_slot(self.0, shift as u32);
        }
        if bitmask & self.0 != 0 {
            Cell::PlayerOne
        } else if (bitmask << PLAYER_BITS) & self.0 != 0 {
            Cell::PlayerTwo
        } else {
            Cell::Empty
        }
    }
}

/// A cell reads as it was last marked: after a mark with a player's stone the cell
/// holds that stone, and after a mark as empty it is empty. No other cell changes.
pub proof fn lemma_read_after_mark(before: Bitboard, after: Bitboard, index: CellIndex, v: Cell)
    requires
        index.on_board(),
        after@ == before@.update(index@, v),
    ensures
        after@[index@] == v,
        forall|p: int| 0 <= p < CELLS && p != index@ ==> after@[p] == before@[p],
{
}

impl Default for Bitboard {
    /// An empty board.
    fn default() -> (board: Bitboard)
        ensures
            board@ == empty_board(),
    {
        Bitboard::new()
    }
}

} // verus!
