use gomoku::handle_game_message;
use gomoku::Board;
use gomoku::GameMessage;
use gomoku::PlayerRole;

#[test]
fn test_game_over_handling() {
    let game_over_msg = GameMessage::GameOver { winner: Some(PlayerRole::Black) };
    let mut board = Board::new();

    let result = handle_game_message(game_over_msg, &mut board);
    assert!(result);
}

#[test]
fn test_invalid_move() {
    let move_msg = GameMessage::Move { row: 3, col: 3 };
    let mut board = Board::new();

    let result = handle_game_message(move_msg, &mut board);
    assert!(!result);
}

/// A move notice is played on the local board for whichever role holds
/// the turn there.
#[test]
fn move_notice_updates_local_board() {
    let mut board = Board::new();
    let over = handle_game_message(GameMessage::Move { row: 7, col: 7 }, &mut board);
    assert!(!over);
    assert_eq!(board.get(7, 7), Some(PlayerRole::Black));
    assert_eq!(board.current_turn(), PlayerRole::White);
}

/// A move notice the local board refuses is ignored.
#[test]
fn bad_move_notice_leaves_board_alone() {
    let mut board = Board::new();
    let over = handle_game_message(GameMessage::Move { row: 20, col: 20 }, &mut board);
    assert!(!over);
    assert_eq!(board.current_turn(), PlayerRole::Black);
}

/// A status notice replaces the local board wholesale.
#[test]
fn status_notice_replaces_board() {
    let mut remote = Board::new();
    remote.make_move(2, 3).unwrap();
    let snapshot = remote.snapshot();

    let mut local = Board::new();
    let over = handle_game_message(
        GameMessage::Status { board: snapshot, current_player: PlayerRole::White },
        &mut local,
    );
    assert!(!over);
    assert_eq!(local.get(2, 3), Some(PlayerRole::Black));
    assert_eq!(local.current_turn(), PlayerRole::White);
}

/// Shutdown ends the session; informational notices do not.
#[test]
fn shutdown_and_informational_notices() {
    let mut board = Board::new();
    assert!(handle_game_message(GameMessage::ServerShutdown, &mut board));
    assert!(!handle_game_message(
        GameMessage::TurnNotification { player: PlayerRole::White },
        &mut board,
    ));
    assert!(!handle_game_message(
        GameMessage::PlayerConnected { player: PlayerRole::White, username: String::from("bob") },
        &mut board,
    ));
    assert!(!handle_game_message(
        GameMessage::PlayerDisconnected { player: PlayerRole::White },
        &mut board,
    ));
}
