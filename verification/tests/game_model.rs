use tic_tac_toe::coordinate::Coordinate;
use tic_tac_toe::game_model::{GameBoard, MoveError};
use tic_tac_toe::pieces::Piece::O;
use tic_tac_toe::pieces::{CellState, Piece, Player, PlayerID};

#[test]
fn test_initial_board_is_empty() {
    let game_board = GameBoard::new();

    let test_cell_at = |position: usize| {
        let cell = game_board.get_cell_at_position(position);
        assert_eq!(cell, Some(&CellState::Empty));
    };

    GameBoard::positions().for_each(test_cell_at);
}

#[test]
fn test_place_x_on_empty_cell() {
    let mut game_board = new_with_first_up(Player::Computer(Piece::X));
    let result = game_board.play_next_up_at_position(1);

    assert!(result.is_ok());
    assert_eq!(
        game_board.get_cell_at_position(1),
        Some(&CellState::Occupied(Piece::X))
    );
}

#[test]
fn test_place_o_on_empty_cell() {
    let mut game_board = new_with_first_up(Player::Computer(O));
    let result = game_board.play_next_up_at_position(1);

    assert!(result.is_ok());
    assert_eq!(
        game_board.get_cell_at_position(1),
        Some(&CellState::Occupied(O))
    );
}

#[test]
fn test_place_piece_on_occupied_cell() {
    let mut game_board = new_with_first_up(Player::Computer(O));

    assert!(game_board.play_next_up_at_position(1).is_ok());
    assert!(game_board.play_next_up_at_position(1).is_err());

    assert_eq!(
        game_board.get_cell_at_position(1),
        Some(&CellState::Occupied(O))
    );
}

#[test]
fn test_empty_board_has_no_winner() {
    let game_board = GameBoard::new();

    assert_eq!(None, game_board.determine_winner());
}

#[test]
fn test_board_with_a_winning_row_has_a_winner() {
    let mut game_board = GameBoard::new();

    let result = game_board
        .play_next_up_at_position(1)
        .and_then(|_| game_board.play_next_up_at_position(4))
        .and_then(|_| game_board.play_next_up_at_position(2))
        .and_then(|_| game_board.play_next_up_at_position(7))
        .and_then(|_| game_board.play_next_up_at_position(3));

    assert!(result.is_ok());

    // row: 1,2,3
    assert!(game_board.determine_winner().is_some());
}

#[test]
fn test_board_with_a_winning_column_has_a_winner() {
    let mut game_board = GameBoard::new();

    let result = game_board
        .play_next_up_at_position(1)
        .and_then(|_| game_board.play_next_up_at_position(2))
        .and_then(|_| game_board.play_next_up_at_position(4))
        .and_then(|_| game_board.play_next_up_at_position(9))
        .and_then(|_| game_board.play_next_up_at_position(7));

    assert!(result.is_ok());

    // column: 1,4,7
    assert!(game_board.determine_winner().is_some());
}

#[test]
fn test_board_with_a_winning_forward_diagonal_has_a_winner() {
    let mut game_board = GameBoard::new();

    let result = game_board
        .play_next_up_at_position(1)
        .and_then(|_| game_board.play_next_up_at_position(2))
        .and_then(|_| game_board.play_next_up_at_position(5))
        .and_then(|_| game_board.play_next_up_at_position(7))
        .and_then(|_| game_board.play_next_up_at_position(9));

    assert!(result.is_ok());

    // diagonal: 1,5,9
    assert!(game_board.determine_winner().is_some());
}

#[test]
fn test_board_with_a_winning_backward_diagonal_has_a_winner() {
    let mut game_board = GameBoard::new();

    let result = game_board
        .play_next_up_at_position(3)
        .and_then(|_| game_board.play_next_up_at_position(2))
        .and_then(|_| game_board.play_next_up_at_position(5))
        .and_then(|_| game_board.play_next_up_at_position(1))
        .and_then(|_| game_board.play_next_up_at_position(7));

    assert!(result.is_ok());

    // diagonal: 3,5,7
    assert!(game_board.determine_winner().is_some());
}

#[test]
fn test_invalid_cell_positions_return_none() {
    let game_board = GameBoard::new();

    assert_eq!(game_board.get_cell_at_position(0), None);

    assert_eq!(game_board.get_cell_at_position(100), None);
}

#[test]
fn test_valid_cell_positions_return_valid_cells() {
    let game_board = GameBoard::new();

    assert_eq!(
        game_board.get_cell_at_position(1),
        Some(get_cell_at_coordinate(&game_board, &Coordinate::top_left()))
    );
    assert_eq!(
        game_board.get_cell_at_position(2),
        Some(get_cell_at_coordinate(&game_board, &Coordinate::top_center()))
    );
    assert_eq!(
        game_board.get_cell_at_position(3),
        Some(get_cell_at_coordinate(&game_board, &Coordinate::top_right()))
    );

    assert_eq!(
        game_board.get_cell_at_position(4),
        Some(get_cell_at_coordinate(
            &game_board,
            &Coordinate::middle_left()
        ))
    );
    assert_eq!(
        game_board.get_cell_at_position(5),
        Some(get_cell_at_coordinate(
            &game_board,
            &Coordinate::middle_center()
        ))
    );
    assert_eq!(
        game_board.get_cell_at_position(6),
        Some(get_cell_at_coordinate(
            &game_board,
            &Coordinate::middle_right()
        ))
    );

    assert_eq!(
        game_board.get_cell_at_position(7),
        Some(get_cell_at_coordinate(
            &game_board,
            &Coordinate::bottom_left()
        ))
    );
    assert_eq!(
        game_board.get_cell_at_position(8),
        Some(get_cell_at_coordinate(
            &game_board,
            &Coordinate::bottom_center()
        ))
    );
    assert_eq!(
        game_board.get_cell_at_position(9),
        Some(get_cell_at_coordinate(
            &game_board,
            &Coordinate::bottom_right()
        ))
    );
}

#[test]
fn test_player_id() {
    let game_board = GameBoard::new();

    assert_eq!(
        *game_board.player_for_id(PlayerID::Player1),
        *game_board.player_1()
    );
    assert_eq!(
        *game_board.player_for_id(PlayerID::Player2),
        *game_board.player_2()
    );
}

#[test]
fn test_determine_winning_player_resolves_to_x_if_x_wins() {
    let mut game_board = new_with_first_up(Player::Computer(Piece::X));
    let result = first_player_top_row_win(&mut game_board);

    assert!(result.is_ok());

    assert!(matches!(
        game_board.determine_winning_player(),
        Some(&Player::Computer(Piece::X))
    ));
}

#[test]
fn test_determine_winning_player_resolves_to_o_if_o_wins() {
    let mut game_board = new_with_first_up(Player::Computer(O));
    let result = first_player_top_row_win(&mut game_board);

    assert!(result.is_ok());

    assert!(matches!(
        game_board.determine_winning_player(),
        Some(&Player::Computer(Piece::O))
    ));
}

#[test]
fn test_determine_winning_player_resolves_to_none_if_there_is_no_winner() {
    let mut game_board = new_with_first_up(Player::Computer(O));

    let result = game_board.play_next_up_at_position(1);

    assert!(result.is_ok());
    assert!(matches!(game_board.determine_winning_player(), None));
}

#[test]
fn test_winning_player_can_be_player_2() {
    let first_up = Player::Computer(O);
    let _second_up = Player::Human(Piece::X);

    let mut game_board = new_with_first_up(first_up);

    let result = first_player_top_row_win(&mut game_board);

    assert!(result.is_ok());
    assert!(matches!(
        game_board.determine_winning_player(),
        Some(_second_up)
    ));
}

#[test]
fn test_board_is_full() {
    let mut game_board = GameBoard::new();
    GameBoard::positions().for_each(|position| _ = game_board.play_next_up_at_position(position));

    assert!(game_board.is_board_full());
}

#[test]
fn test_empty_board_is_not_full() {
    let game_board = GameBoard::new();

    assert!(!game_board.is_board_full());
}

#[test]
fn test_board_with_less_than_9_positions_is_not_full() {
    let mut game_board = GameBoard::new();

    let all_positions = GameBoard::positions();
    let end_position = all_positions.end();
    let new_end_position = *end_position - 1;
    let less_than_all_positions = *all_positions.start()..=new_end_position;

    less_than_all_positions.for_each(|position| _ = game_board.play_next_up_at_position(position));

    assert!(!game_board.is_board_full());
}

#[test]
fn test_get_random_available_position_is_a_not_none() {
    let random_position = GameBoard::new().get_random_available_position();

    assert!(matches!(random_position, Some(_)));
}

#[test]
fn test_name_of_human_player() {
    let human_name = "Human";

    assert_eq!(human_name, Player::Human(Piece::X).name());
    assert_eq!(human_name, Player::Human(O).name());
}

#[test]
fn test_name_of_computer_player() {
    let computer_name = "Computer";

    assert_eq!(computer_name, Player::Computer(Piece::X).name());
    assert_eq!(computer_name, Player::Computer(O).name());
}

#[test]
fn test_piece_retrieval() {
    assert_eq!(&Piece::X, Player::Computer(Piece::X).piece());
    assert_eq!(&O, Player::Computer(O).piece());
    assert_eq!(&Piece::X, Player::Human(Piece::X).piece());
    assert_eq!(&O, Player::Human(O).piece());
}

// Helpers shared by the tests above.
fn first_player_top_row_win(game_board: &mut GameBoard) -> Result<(), MoveError> {
    game_board
        .play_next_up_at_position(1)
        .and_then(|_| game_board.play_next_up_at_position(4))
        .and_then(|_| game_board.play_next_up_at_position(2))
        .and_then(|_| game_board.play_next_up_at_position(7))
        .and_then(|_| game_board.play_next_up_at_position(3))
}

fn get_cell_at_coordinate<'a>(game_board: &'a GameBoard, coordinate: &Coordinate) -> &'a CellState {
    game_board.get_cell_at_coordinate(coordinate)
}

fn other_piece(piece: Piece) -> Piece {
    if piece == Piece::O {
        Piece::X
    } else {
        Piece::O
    }
}

fn new_with_first_up(first_up_player: Player) -> GameBoard {
    let other_player = match first_up_player {
        Player::Computer(piece) => Player::Human(other_piece(piece)),
        Player::Human(piece) => Player::Computer(other_piece(piece)),
    };

    match GameBoard::with_players(first_up_player, other_player, PlayerID::Player1) {
        Some(game_board) => game_board,
        None => panic!("the two players hold different pieces"),
    }
}
