use gomoku::ai::AIPlayer;
use gomoku::Board;
use gomoku::GameError;
use gomoku::PlayerRole;

/// Lay marks for both roles by alternating moves; `filler` absorbs the
/// other role's turns on the top rows.
fn black_line(cells: &[(usize, usize)]) -> Board {
    let mut board = Board::new();
    for (k, &(r, c)) in cells.iter().enumerate() {
        board.make_move(r, c).unwrap(); // Black
        board.make_move(14, k).unwrap(); // White filler
    }
    board
}

/// A board where it is White's turn and White holds the given cells,
/// Black having played filler moves on the bottom row.
fn white_line(cells: &[(usize, usize)]) -> Board {
    let mut board = Board::new();
    for (k, &(r, c)) in cells.iter().enumerate() {
        // Scattered fillers, so Black never builds a line of its own.
        board.make_move(14, 2 * k).unwrap(); // Black filler
        board.make_move(r, c).unwrap(); // White
    }
    board
}

/// Four in a row with an open fifth cell is taken at once, horizontally.
#[test]
fn immediate_win_horizontal() {
    let board = black_line(&[(7, 7), (7, 8), (7, 9), (7, 10)]);
    let engine = AIPlayer::new(PlayerRole::Black);
    // The first completing cell in row-major order is (7, 6).
    assert_eq!(engine.make_move(&board), Ok((7, 6)));
}

#[test]
fn immediate_win_vertical() {
    let board = black_line(&[(3, 9), (4, 9), (5, 9), (6, 9)]);
    let engine = AIPlayer::new(PlayerRole::Black);
    assert_eq!(engine.make_move(&board), Ok((2, 9)));
}

#[test]
fn immediate_win_diagonal() {
    let board = black_line(&[(2, 2), (3, 3), (4, 4), (5, 5)]);
    let engine = AIPlayer::new(PlayerRole::Black);
    assert_eq!(engine.make_move(&board), Ok((1, 1)));
}

#[test]
fn immediate_win_anti_diagonal() {
    let board = black_line(&[(2, 12), (3, 11), (4, 10), (5, 9)]);
    let engine = AIPlayer::new(PlayerRole::Black);
    assert_eq!(engine.make_move(&board), Ok((1, 13)));
}

/// The opponent's open four is blocked: the engine takes a cell that
/// would have completed the opponent's line.
#[test]
fn blocks_open_four() {
    // White holds (7,7)..(7,10), both ends open; Black to move.
    let board = white_line(&[(7, 7), (7, 8), (7, 9), (7, 10)]);
    assert_eq!(board.current_turn(), PlayerRole::Black);
    let engine = AIPlayer::new(PlayerRole::Black);
    let (r, c) = engine.make_move(&board).unwrap();
    // The first denying cell in row-major order is the left extension.
    assert_eq!((r, c), (7, 6));
}

/// An open three is denied before it becomes an open four.
#[test]
fn blocks_open_three() {
    let board = white_line(&[(7, 7), (7, 8), (7, 9)]);
    let engine = AIPlayer::new(PlayerRole::Black);
    let (r, c) = engine.make_move(&board).unwrap();
    // Marking (7,6) or (7,10) for White would give an open four; the scan
    // finds (7,6) first.
    assert_eq!((r, c), (7, 6));
}

/// On an empty board the positional bias is highest at the center, so the
/// heuristic stage picks (7,7).
#[test]
fn empty_board_prefers_center() {
    let board = Board::new();
    let engine = AIPlayer::with_depth(PlayerRole::Black, 0);
    assert_eq!(engine.make_move(&board), Ok((7, 7)));
}

/// A full board yields `NoLegalMove`.
#[test]
fn full_board_no_legal_move() {
    let mut board = Board::new();
    for r in 0..15 {
        for c in 0..15 {
            board.make_move(r, c).unwrap();
        }
    }
    assert!(board.is_full());
    let engine = AIPlayer::new(PlayerRole::Black);
    assert_eq!(engine.make_move(&board), Err(GameError::NoLegalMove));
}

/// The degraded random policy always answers with a cell on the grid.
#[test]
fn simple_policy_stays_on_grid() {
    let board = Board::new();
    let engine = AIPlayer::new(PlayerRole::Black);
    for _ in 0..100 {
        let (r, c) = engine.make_move_simple(&board, PlayerRole::Black).unwrap();
        assert!(r < 15 && c < 15);
    }
}
