use gomoku::Board;
use gomoku::GameError;
use gomoku::Move;
use gomoku::PlayerRole;

/// Fresh board, Black plays (7,7): the turn becomes White and no winner
/// exists.
#[test]
fn first_move_flips_turn_and_no_winner() {
    let mut board = Board::new();
    assert_eq!(board.current_turn(), PlayerRole::Black);
    assert!(board.make_move(7, 7).is_ok());
    assert_eq!(board.get(7, 7), Some(PlayerRole::Black));
    assert_eq!(board.current_turn(), PlayerRole::White);
    assert_eq!(board.check_winner(), None);
}

#[test]
fn empty_board_has_no_winner() {
    let board = Board::new();
    assert_eq!(board.check_winner(), None);
    for row in 0..15 {
        for col in 0..15 {
            assert_eq!(board.get(row, col), None);
        }
    }
    assert!(!board.is_full());
}

#[test]
fn out_of_bounds_move_rejected() {
    let mut board = Board::new();
    assert_eq!(board.make_move(15, 0), Err(GameError::OutOfBounds));
    assert_eq!(board.make_move(0, 15), Err(GameError::OutOfBounds));
    assert_eq!(board.make_move(99, 99), Err(GameError::OutOfBounds));
    // The refusal left the board untouched.
    assert_eq!(board.current_turn(), PlayerRole::Black);
    assert_eq!(board.check_winner(), None);
}

#[test]
fn occupied_cell_rejected() {
    let mut board = Board::new();
    assert!(board.make_move(3, 4).is_ok());
    assert_eq!(board.make_move(3, 4), Err(GameError::PositionOccupied));
    assert_eq!(board.get(3, 4), Some(PlayerRole::Black));
    assert_eq!(board.current_turn(), PlayerRole::White);
}

#[test]
fn wrong_role_rejected_by_place() {
    let mut board = Board::new();
    let r = board.place(Move { row: 1, col: 1 }, PlayerRole::White);
    assert_eq!(r, Err(GameError::NotYourTurn));
    assert_eq!(board.get(1, 1), None);
    assert_eq!(board.current_turn(), PlayerRole::Black);
}

/// Repeating the same invalid move yields the same error twice and never
/// changes the board.
#[test]
fn rejection_is_idempotent() {
    let mut board = Board::new();
    assert!(board.make_move(5, 5).is_ok());
    let e1 = board.make_move(5, 5);
    let e2 = board.make_move(5, 5);
    assert_eq!(e1, Err(GameError::PositionOccupied));
    assert_eq!(e1, e2);
    let o1 = board.make_move(200, 0);
    let o2 = board.make_move(200, 0);
    assert_eq!(o1, Err(GameError::OutOfBounds));
    assert_eq!(o1, o2);
    assert_eq!(board.get(5, 5), Some(PlayerRole::Black));
    assert_eq!(board.current_turn(), PlayerRole::White);
}

/// Black builds five in a row horizontally while White plays elsewhere.
#[test]
fn five_in_a_row_horizontal_wins() {
    let mut board = Board::new();
    for k in 0..4 {
        assert!(board.make_move(7, 7 + k).is_ok()); // Black
        assert_eq!(board.check_winner(), None);
        assert!(board.make_move(0, k).is_ok()); // White
        assert_eq!(board.check_winner(), None);
    }
    assert!(board.make_move(7, 11).is_ok()); // Black's fifth
    assert_eq!(board.check_winner(), Some(PlayerRole::Black));
}

#[test]
fn five_in_a_row_vertical_wins() {
    let mut board = Board::new();
    for k in 0..4 {
        assert!(board.make_move(3 + k, 9).is_ok()); // Black
        assert!(board.make_move(14, k).is_ok()); // White
    }
    assert!(board.make_move(7, 9).is_ok());
    assert_eq!(board.check_winner(), Some(PlayerRole::Black));
}

#[test]
fn five_in_a_row_diagonal_wins() {
    let mut board = Board::new();
    for k in 0..4 {
        assert!(board.make_move(2 + k, 2 + k).is_ok()); // Black
        assert!(board.make_move(14, k).is_ok()); // White
    }
    assert!(board.make_move(6, 6).is_ok());
    assert_eq!(board.check_winner(), Some(PlayerRole::Black));
}

#[test]
fn five_in_a_row_anti_diagonal_wins() {
    let mut board = Board::new();
    for k in 0..4 {
        assert!(board.make_move(2 + k, 12 - k).is_ok()); // Black
        assert!(board.make_move(14, k).is_ok()); // White
    }
    assert!(board.make_move(6, 8).is_ok());
    assert_eq!(board.check_winner(), Some(PlayerRole::Black));
}

/// White can win too: the scan is not biased to one role.
#[test]
fn white_five_wins() {
    let mut board = Board::new();
    // Black plays on row 0 (only four in a row, no win), White builds five
    // on row 10.
    for k in 0..4 {
        assert!(board.make_move(0, k).is_ok()); // Black
        assert!(board.make_move(10, 4 + k).is_ok()); // White
    }
    assert!(board.make_move(14, 14).is_ok()); // Black elsewhere
    assert!(board.make_move(10, 8).is_ok()); // White's fifth
    assert_eq!(board.check_winner(), Some(PlayerRole::White));
}

#[test]
fn snapshot_is_a_deep_copy() {
    let mut board = Board::new();
    assert!(board.make_move(4, 4).is_ok());
    let snap = board.snapshot();
    assert!(board.make_move(5, 5).is_ok());
    assert_eq!(snap.get(4, 4), Some(PlayerRole::Black));
    assert_eq!(snap.get(5, 5), None);
    assert_eq!(snap.current_turn(), PlayerRole::White);
    assert_eq!(board.get(5, 5), Some(PlayerRole::White));
}
