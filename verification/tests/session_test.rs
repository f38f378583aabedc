use gomoku::Game;
use gomoku::GameError;
use gomoku::GameMessage;
use gomoku::Outcome;
use gomoku::Outgoing;
use gomoku::PlayerRole;

fn two_humans() -> Game {
    let mut game = Game::new();
    let (first, _) = game.join(String::from("alice")).unwrap();
    assert_eq!(first, PlayerRole::Black);
    let (second, _) = game.join(String::from("bob")).unwrap();
    assert_eq!(second, PlayerRole::White);
    game
}

/// Two humans join in turn: Black first, White second, a third refused;
/// after both leave the board is back to its initial empty state.
#[test]
fn join_assigns_roles_and_leave_resets() {
    let mut game = two_humans();
    assert_eq!(game.join(String::from("carol")), Err(GameError::TableFull));

    // Play a couple of moves so that the later reset is observable.
    game.submit_move(PlayerRole::Black, 7, 7).unwrap();
    game.submit_move(PlayerRole::White, 8, 8).unwrap();

    game.leave(PlayerRole::Black);
    assert!(!game.has_participant(PlayerRole::Black));
    assert!(game.has_participant(PlayerRole::White));
    // One human left: the board is kept as it was.
    assert_eq!(game.board().get(7, 7), Some(PlayerRole::Black));

    game.leave(PlayerRole::White);
    assert!(!game.has_participant(PlayerRole::White));
    for r in 0..15 {
        for c in 0..15 {
            assert_eq!(game.board().get(r, c), None);
        }
    }
    assert_eq!(game.board().current_turn(), PlayerRole::Black);
    assert_eq!(game.ai_controller(), None);
    assert!(!game.finished());
}

/// A single human gets the engine bound to the seat across; a second
/// human displaces it.
#[test]
fn engine_binds_and_unbinds() {
    let mut game = Game::new();
    let (first, events) = game.join(String::from("alice")).unwrap();
    assert_eq!(first, PlayerRole::Black);
    assert_eq!(game.ai_controller(), Some(PlayerRole::White));
    // Snapshot to the joiner, joined notice, and a turn notification since
    // the table is ready and Black (a human) holds the turn.
    assert_eq!(events.len(), 3);
    assert!(matches!(
        &events[0],
        Outgoing { to: PlayerRole::Black, msg: GameMessage::Status { .. } }
    ));
    assert!(matches!(
        &events[1],
        Outgoing { to: PlayerRole::Black, msg: GameMessage::PlayerConnected { player: PlayerRole::Black, .. } }
    ));
    assert!(matches!(
        &events[2],
        Outgoing { to: PlayerRole::Black, msg: GameMessage::TurnNotification { player: PlayerRole::Black } }
    ));

    let (second, _) = game.join(String::from("bob")).unwrap();
    assert_eq!(second, PlayerRole::White);
    assert_eq!(game.ai_controller(), None);
}

/// Moving out of turn is refused and the board stays untouched.
#[test]
fn out_of_turn_rejected() {
    let mut game = two_humans();
    let r = game.submit_move(PlayerRole::White, 7, 7);
    assert_eq!(r, Err(GameError::NotYourTurn));
    assert_eq!(game.board().get(7, 7), None);
    assert_eq!(game.board().current_turn(), PlayerRole::Black);
}

/// Without two actors the table refuses moves.
#[test]
fn not_ready_rejected() {
    let mut game = Game::new();
    assert_eq!(
        game.submit_move(PlayerRole::Black, 7, 7),
        Err(GameError::TableNotReady)
    );
}

/// Black builds five across alternating turns; the fifth move wins and
/// the table is finished.
#[test]
fn five_across_turns_finishes_table() {
    let mut game = two_humans();
    for k in 0..4 {
        let (outcome, _) = game.submit_move(PlayerRole::Black, 7, 7 + k).unwrap();
        assert_eq!(outcome, Outcome::InProgress);
        let (outcome, _) = game.submit_move(PlayerRole::White, 0, k).unwrap();
        assert_eq!(outcome, Outcome::InProgress);
        assert!(!game.finished());
    }
    let (outcome, events) = game.submit_move(PlayerRole::Black, 7, 11).unwrap();
    assert_eq!(outcome, Outcome::Win(PlayerRole::Black));
    assert!(game.finished());
    assert_eq!(game.board().check_winner(), Some(PlayerRole::Black));
    // Move + snapshot to both humans, a turn notification, then game-over
    // notices to both.
    assert_eq!(events.len(), 7);
    assert!(matches!(
        &events[5],
        Outgoing { to: PlayerRole::Black, msg: GameMessage::GameOver { winner: Some(PlayerRole::Black) } }
    ));
    assert!(matches!(
        &events[6],
        Outgoing { to: PlayerRole::White, msg: GameMessage::GameOver { winner: Some(PlayerRole::Black) } }
    ));

    // A finished table refuses further moves.
    assert_eq!(
        game.submit_move(PlayerRole::White, 12, 12),
        Err(GameError::TableNotReady)
    );
}

/// The events of an accepted move: move notice and snapshot per human,
/// then the turn notification to the next human.
#[test]
fn move_events_shape() {
    let mut game = two_humans();
    let (outcome, events) = game.submit_move(PlayerRole::Black, 7, 7).unwrap();
    assert_eq!(outcome, Outcome::InProgress);
    assert_eq!(events.len(), 5);
    assert!(matches!(
        &events[0],
        Outgoing { to: PlayerRole::Black, msg: GameMessage::Move { row: 7, col: 7 } }
    ));
    match &events[1] {
        Outgoing { to: PlayerRole::Black, msg: GameMessage::Status { board, current_player } } => {
            assert_eq!(board.get(7, 7), Some(PlayerRole::Black));
            assert_eq!(*current_player, PlayerRole::White);
        },
        _ => panic!("expected a snapshot to Black"),
    }
    assert!(matches!(
        &events[2],
        Outgoing { to: PlayerRole::White, msg: GameMessage::Move { row: 7, col: 7 } }
    ));
    assert!(matches!(
        &events[4],
        Outgoing { to: PlayerRole::White, msg: GameMessage::TurnNotification { player: PlayerRole::White } }
    ));
}

/// Against the engine the human's move is answered in the same call.
#[test]
fn engine_replies_in_same_call() {
    let mut game = Game::with_search_depth(0);
    let (role, _) = game.join(String::from("alice")).unwrap();
    assert_eq!(role, PlayerRole::Black);
    assert_eq!(game.ai_controller(), Some(PlayerRole::White));

    let (outcome, _) = game.submit_move(PlayerRole::Black, 7, 7).unwrap();
    assert_eq!(outcome, Outcome::InProgress);
    // Both the human's mark and the engine's reply are on the board, and
    // the turn is back with the human.
    let mut marks = 0;
    for r in 0..15 {
        for c in 0..15 {
            if game.board().get(r, c).is_some() {
                marks += 1;
            }
        }
    }
    assert_eq!(marks, 2);
    assert_eq!(game.board().current_turn(), PlayerRole::Black);
}

/// The engine's reply is deterministic: after Black opens at the center,
/// a depth-zero engine answers on the first neighbouring cell that is not
/// penalised for touching the opponent's mark.
#[test]
fn engine_reply_is_deterministic() {
    let mut game = Game::with_search_depth(0);
    game.join(String::from("alice")).unwrap();
    game.submit_move(PlayerRole::Black, 7, 7).unwrap();
    assert_eq!(game.board().get(7, 8), Some(PlayerRole::White));
}

/// Shutdown notifies every seated human and leaves the board alone.
#[test]
fn shutdown_notifies_all() {
    let mut game = two_humans();
    game.submit_move(PlayerRole::Black, 7, 7).unwrap();
    let events = game.shutdown();
    assert_eq!(events.len(), 2);
    assert!(matches!(
        &events[0],
        Outgoing { to: PlayerRole::Black, msg: GameMessage::ServerShutdown }
    ));
    assert!(matches!(
        &events[1],
        Outgoing { to: PlayerRole::White, msg: GameMessage::ServerShutdown }
    ));
    assert_eq!(game.board().get(7, 7), Some(PlayerRole::Black));
}

/// A leaving human is reported to whoever stays.
#[test]
fn leave_notifies_remaining() {
    let mut game = two_humans();
    let events = game.leave(PlayerRole::White);
    assert_eq!(events.len(), 1);
    assert!(matches!(
        &events[0],
        Outgoing { to: PlayerRole::Black, msg: GameMessage::PlayerDisconnected { player: PlayerRole::White } }
    ));
}

#[test]
fn get_player_role_order() {
    let mut game = Game::new();
    assert_eq!(game.get_player_role(), Some(PlayerRole::Black));
    game.join(String::from("alice")).unwrap();
    assert_eq!(game.get_player_role(), Some(PlayerRole::White));
    game.join(String::from("bob")).unwrap();
    assert_eq!(game.get_player_role(), None);
}
