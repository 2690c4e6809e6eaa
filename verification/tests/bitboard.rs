use tic_tac_toe::{Bitboard, Cell, CellIndex};

#[test]
fn victory_condition() {
    let mut board = Bitboard::new();
    assert!(!board.victory());
    board.mark_cell(CellIndex::new(0), Cell::PlayerTwo);
    board.mark_cell(CellIndex::new(4), Cell::PlayerTwo);
    board.mark_cell(CellIndex::new(8), Cell::PlayerTwo);
    assert!(board.victory());
}

#[test]
fn main_diagonal_of_player_one_wins() {
    let mut board = Bitboard::new();
    board.mark_cell(CellIndex::new(0), Cell::PlayerOne);
    assert!(!board.victory());
    board.mark_cell(CellIndex::new(4), Cell::PlayerOne);
    assert!(!board.victory());
    board.mark_cell(CellIndex::new(8), Cell::PlayerOne);
    assert!(board.victory());
}

fn board_with(player: Cell, cells: [u8; 3]) -> Bitboard {
    let mut board = Bitboard::new();
    for cell in cells {
        board.mark_cell(CellIndex::new(cell), player);
    }
    board
}

const LINES: [[u8; 3]; 8] = [
    [0, 1, 2],
    [3, 4, 5],
    [6, 7, 8],
    [0, 3, 6],
    [1, 4, 7],
    [2, 5, 8],
    [0, 4, 8],
    [2, 4, 6],
];

#[test]
fn every_line_wins_for_either_player() {
    for line in LINES {
        assert!(board_with(Cell::PlayerOne, line).victory(), "{:?}", line);
        assert!(board_with(Cell::PlayerTwo, line).victory(), "{:?}", line);
    }
}

#[test]
fn only_the_eight_lines_win() {
    for a in 0..9u8 {
        for b in (a + 1)..9 {
            for c in (b + 1)..9 {
                let expected = LINES.contains(&[a, b, c]);
                assert_eq!(board_with(Cell::PlayerOne, [a, b, c]).victory(), expected);
                assert_eq!(board_with(Cell::PlayerTwo, [a, b, c]).victory(), expected);
            }
        }
    }
}

#[test]
fn stones_across_a_row_end_are_no_line() {
    // The end of one row and the start of the next do not make a row.
    assert!(!board_with(Cell::PlayerOne, [1, 2, 3]).victory());
    assert!(!board_with(Cell::PlayerOne, [2, 3, 4]).victory());
    assert!(!board_with(Cell::PlayerTwo, [4, 5, 6]).victory());
    assert!(!board_with(Cell::PlayerTwo, [5, 6, 7]).victory());
}

#[test]
fn a_line_shared_by_both_players_does_not_win() {
    let mut board = Bitboard::new();
    board.mark_cell(CellIndex::new(0), Cell::PlayerOne);
    board.mark_cell(CellIndex::new(1), Cell::PlayerTwo);
    board.mark_cell(CellIndex::new(2), Cell::PlayerOne);
    assert!(!board.victory());
    board.mark_cell(CellIndex::new(4), Cell::PlayerTwo);
    board.mark_cell(CellIndex::new(8), Cell::PlayerOne);
    assert!(!board.victory());
}

#[test]
fn new_board_is_empty() {
    let board = Bitboard::new();
    assert_eq!(board.stones(), 0);
    for p in 0..9 {
        assert_eq!(board.field(CellIndex::new(p)), Cell::Empty);
    }
    assert_eq!(board, Bitboard::default());
}

#[test]
fn field_reads_what_was_marked() {
    for p in 0..9 {
        for player in [Cell::PlayerOne, Cell::PlayerTwo] {
            let mut board = Bitboard::new();
            board.mark_cell(CellIndex::new(p), player);
            assert_eq!(board.field(CellIndex::new(p)), player);
            for q in 0..9 {
                if q != p {
                    assert_eq!(board.field(CellIndex::new(q)), Cell::Empty);
                }
            }
            board.mark_cell(CellIndex::new(p), Cell::Empty);
            assert_eq!(board.field(CellIndex::new(p)), Cell::Empty);
            assert_eq!(board, Bitboard::new());
        }
    }
}

#[test]
fn marking_a_cell_twice_changes_nothing() {
    let mut board = Bitboard::new();
    board.mark_cell(CellIndex::new(5), Cell::PlayerTwo);
    let once = board;
    board.mark_cell(CellIndex::new(5), Cell::PlayerTwo);
    assert_eq!(board, once);
    assert_eq!(board.stones(), 1);
}

#[test]
fn marking_empty_leaves_other_cells() {
    let mut board = Bitboard::new();
    board.mark_cell(CellIndex::new(3), Cell::PlayerOne);
    board.mark_cell(CellIndex::new(4), Cell::PlayerTwo);
    board.mark_cell(CellIndex::new(3), Cell::Empty);
    assert_eq!(board.field(CellIndex::new(3)), Cell::Empty);
    assert_eq!(board.field(CellIndex::new(4)), Cell::PlayerTwo);
    assert_eq!(board.stones(), 1);
}

#[test]
fn stones_counts_both_players() {
    let mut board = Bitboard::new();
    let mut expected = 0;
    for p in 0..9 {
        let player = if p % 2 == 0 { Cell::PlayerOne } else { Cell::PlayerTwo };
        board.mark_cell(CellIndex::new(p), player);
        expected += 1;
        assert_eq!(board.stones(), expected);
    }
    assert_eq!(board.stones(), 9);
}

#[test]
fn stones_is_a_count_and_not_the_packed_word() {
    let mut board = Bitboard::new();
    board.mark_cell(CellIndex::new(8), Cell::PlayerTwo);
    assert_eq!(board.stones(), 1);
    board.mark_cell(CellIndex::new(0), Cell::PlayerOne);
    board.mark_cell(CellIndex::new(7), Cell::PlayerOne);
    assert_eq!(board.stones(), 3);
}
