use tic_tac_toe::{CellIndex, TicTacToe, TicTacToeState};

fn play(moves: &[u8]) -> TicTacToe {
    let mut game = TicTacToe::new();
    for &mov in moves {
        game.play_move(&CellIndex::new(mov));
    }
    game
}

fn drawing(game: TicTacToe) -> String {
    let mut buf = Vec::new();
    game.print_to(&mut buf);
    String::from_utf8(buf).unwrap()
}

fn cells(numbers: &[u8]) -> Vec<CellIndex> {
    numbers.iter().map(|&n| CellIndex::new(n)).collect()
}

#[test]
fn empty_board() {
    let board = TicTacToe::new();
    let mut buf = Vec::new();
    board.print_to(&mut buf);

    let expected = "-------\n\
                    | | | |\n\
                    |-----|\n\
                    | | | |\n\
                    |-----|\n\
                    | | | |\n\
                    -------";

    assert_eq!(String::from_utf8(buf).unwrap(), expected);
}

#[test]
fn board_with_two_stones() {
    let mut board = TicTacToe::new();
    board.play_move(&CellIndex::new(4));
    board.play_move(&CellIndex::new(6));
    let mut buf = Vec::new();
    board.print_to(&mut buf);

    let expected = "-------\n\
                    | | | |\n\
                    |-----|\n\
                    | |X| |\n\
                    |-----|\n\
                    |O| | |\n\
                    -------";

    assert_eq!(String::from_utf8(buf).unwrap(), expected);
}

#[test]
fn victory_condition_player_two() {
    // -------
    // | | |X|
    // |-----|
    // | |X|X|
    // |-----|
    // |O|O|O|
    // -------
    let mut game = TicTacToe::new();
    game.play_move(&CellIndex::new(4));
    game.play_move(&CellIndex::new(6));
    game.play_move(&CellIndex::new(2));
    game.play_move(&CellIndex::new(8));
    game.play_move(&CellIndex::new(5));
    game.play_move(&CellIndex::new(7));

    assert_eq!(game.state(), TicTacToeState::VictoryPlayerTwo);
}

#[test]
fn empty_board_drawing_is_exact() {
    assert_eq!(
        drawing(TicTacToe::new()),
        "-------\n| | | |\n|-----|\n| | | |\n|-----|\n| | | |\n-------"
    );
}

#[test]
fn drawing_is_appended_to_what_is_there() {
    let mut buf = b"board:\n".to_vec();
    play(&[0]).print_to(&mut buf);
    assert_eq!(
        String::from_utf8(buf).unwrap(),
        "board:\n-------\n|X| | |\n|-----|\n| | | |\n|-----|\n| | | |\n-------"
    );
}

#[test]
fn drawing_of_a_full_board() {
    assert_eq!(
        drawing(play(&[0, 1, 2, 4, 3, 5, 7, 6, 8])),
        "-------\n|X|O|X|\n|-----|\n|X|O|O|\n|-----|\n|O|X|X|\n-------"
    );
}

#[test]
fn a_new_game_starts_with_player_one() {
    let game = TicTacToe::new();
    assert_eq!(game.state(), TicTacToeState::TurnPlayerOne);
    assert_eq!(game, TicTacToe::default());
    assert_eq!(game.open_fields(), cells(&[0, 1, 2, 3, 4, 5, 6, 7, 8]));
}

#[test]
fn every_move_places_one_stone() {
    let moves = [4, 6, 2, 8, 5, 7];
    for n in 0..=moves.len() {
        let game = play(&moves[..n]);
        assert_eq!(game.open_fields().len(), 9 - n);
    }
}

#[test]
fn turns_alternate_while_no_line_is_complete() {
    let moves = [0, 1, 2, 4, 3, 5, 7, 6];
    for n in 0..=moves.len() {
        let expected = if n % 2 == 0 {
            TicTacToeState::TurnPlayerOne
        } else {
            TicTacToeState::TurnPlayerTwo
        };
        assert_eq!(play(&moves[..n]).state(), expected);
    }
}

#[test]
fn a_full_board_without_a_line_is_a_draw() {
    let game = play(&[0, 1, 2, 4, 3, 5, 7, 6, 8]);
    assert_eq!(game.state(), TicTacToeState::Draw);
    assert!(game.state().is_terminal());
    assert_eq!(game.open_fields(), cells(&[]));
}

#[test]
fn victory_of_player_one() {
    let game = play(&[0, 3, 1, 4, 2]);
    assert_eq!(game.state(), TicTacToeState::VictoryPlayerOne);
    assert!(game.state().is_terminal());
}

#[test]
fn victory_with_the_last_stone_is_no_draw() {
    // X O X
    // O X O
    // O X X
    let game = play(&[0, 1, 2, 3, 4, 5, 7, 6, 8]);
    assert_eq!(game.state(), TicTacToeState::VictoryPlayerOne);
}

#[test]
fn open_fields_are_the_empty_cells_in_ascending_order() {
    assert_eq!(play(&[4, 6]).open_fields(), cells(&[0, 1, 2, 3, 5, 7, 8]));
    assert_eq!(play(&[8, 0, 3]).open_fields(), cells(&[1, 2, 4, 5, 6, 7]));
    assert_eq!(play(&[4, 6, 2, 8, 5, 7]).open_fields(), cells(&[0, 1, 3]));
}

#[test]
fn open_fields_reflect_the_board_at_each_call() {
    let mut game = TicTacToe::new();
    let before = game.open_fields();
    game.play_move(&CellIndex::new(0));
    assert_eq!(before.len(), 9);
    assert_eq!(game.open_fields(), cells(&[1, 2, 3, 4, 5, 6, 7, 8]));
}

#[test]
fn terminal_states() {
    assert!(TicTacToeState::VictoryPlayerOne.is_terminal());
    assert!(TicTacToeState::VictoryPlayerTwo.is_terminal());
    assert!(TicTacToeState::Draw.is_terminal());
    assert!(!TicTacToeState::TurnPlayerOne.is_terminal());
    assert!(!TicTacToeState::TurnPlayerTwo.is_terminal());
}
