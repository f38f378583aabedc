//! The protocol vocabulary the table speaks: inbound requests and outbound
//! events, and the client-side application of an event to a local board
//! copy. Framing and (de)serialization live outside the library.

use vstd::prelude::*;

use crate::board::Board;
use crate::board::PlayerRole;
use crate::board::cell_index;
use crate::board::place_error;

verus! {

/// One message of the game protocol.
#[derive(Debug, PartialEq)]
pub enum GameMessage {
    ConnectRequest { username: String },
    ConnectResponse { username: String, player_role: PlayerRole },
    Move { row: usize, col: usize },
    Error(String),
    GameOver { winner: Option<PlayerRole> },
    Status { board: Board, current_player: PlayerRole },
    TurnNotification { player: PlayerRole },
    PlayerDisconnected { player: PlayerRole },
    PlayerConnected { player: PlayerRole, username: String },
    ServerShutdown,
}

/// A message addressed to the participant seated at `to`.
#[derive(Debug, PartialEq)]
pub struct Outgoing {
    pub to: PlayerRole,
    pub msg: GameMessage,
}

/// `o` carries a move notice for (row, col) to `to`.
pub open spec fn is_move(o: Outgoing, to: PlayerRole, row: int, col: int) -> bool {
    o.to == to && match o.msg {
        GameMessage::Move { row: r, col: c } => r as int == row && c as int == col,
        _ => false,
    }
}

/// `o` carries a full board snapshot with grid `g` and turn `t` to `to`.
pub open spec fn is_status(
    o: Outgoing,
    to: PlayerRole,
    g: Seq<Option<PlayerRole>>,
    t: PlayerRole,
) -> bool {
    o.to == to && match o.msg {
        GameMessage::Status { board, current_player } => board.wf() && board.grid() == g
            && board.turn() == t && current_player == t,
        _ => false,
    }
}

/// `o` tells `to` that `p` now holds the turn.
pub open spec fn is_turn_note(o: Outgoing, to: PlayerRole, p: PlayerRole) -> bool {
    o.to == to && match o.msg {
        GameMessage::TurnNotification { player } => player == p,
        _ => false,
    }
}

/// `o` tells `to` that the game ended with winner `w` (`None`: a draw).
pub open spec fn is_over(o: Outgoing, to: PlayerRole, w: Option<PlayerRole>) -> bool {
    o.to == to && match o.msg {
        GameMessage::GameOver { winner } => winner == w,
        _ => false,
    }
}

/// `o` tells `to` that `p` joined under `name`.
pub open spec fn is_connected(o: Outgoing, to: PlayerRole, p: PlayerRole, name: Seq<char>) -> bool {
    o.to == to && match o.msg {
        GameMessage::PlayerConnected { player, username } => player == p && username@ == name,
        _ => false,
    }
}

/// `o` tells `to` that `p` left.
pub open spec fn is_disconnected(o: Outgoing, to: PlayerRole, p: PlayerRole) -> bool {
    o.to == to && match o.msg {
        GameMessage::PlayerDisconnected { player } => player == p,
        _ => false,
    }
}

/// `o` tells `to` that the server is shutting down.
pub open spec fn is_shutdown(o: Outgoing, to: PlayerRole) -> bool {
    o.to == to && o.msg is ServerShutdown
}

/// Apply one server event to a client's local board copy and report
/// whether the game is over for this client. A move notice is played on
/// the local board (and silently ignored if the local copy refuses it), a
/// status notice replaces the local board wholesale, a game-over or
/// shutdown notice ends the session; everything else is informational.
pub fn handle_game_message(msg: GameMessage, board: &mut Board) -> (over: bool)
    requires
        old(board).wf(),
        match msg {
            GameMessage::Status { board: nb, .. } => nb.wf(),
            _ => true,
        },
    ensures
        final(board).wf(),
        match msg {
            GameMessage::Move { row, col } => !over && if place_error(
                old(board).grid(),
                old(board).turn(),
                row as int,
                col as int,
                old(board).turn(),
            ) is None {
                final(board).grid() == old(board).grid().update(
                    cell_index(row as int, col as int),
                    Some(old(board).turn()),
                ) && final(board).turn() == old(board).turn().other()
            } else {
                final(board).grid() == old(board).grid() && final(board).turn() == old(
                    board,
                ).turn()
            },
            GameMessage::Status { board: nb, current_player: _ } => !over && final(board).grid()
                == nb.grid() && final(board).turn() == nb.turn(),
            GameMessage::GameOver { .. } => over && final(board).grid() == old(board).grid()
                && final(board).turn() == old(board).turn(),
            GameMessage::ServerShutdown => over && final(board).grid() == old(board).grid()
                && final(board).turn() == old(board).turn(),
            _ => !over && final(board).grid() == old(board).grid() && final(board).turn() == old(
                board,
            ).turn(),
        },
{
    match msg {
        GameMessage::Move { row, col } => {
            let _ = board.make_move(row, col);
            false
        },
        GameMessage::Status { board: nb, current_player: _ } => {
            *board = nb;
            false
        },
        GameMessage::GameOver { winner: _ } => true,
        GameMessage::ServerShutdown => true,
        _ => false,
    }
}

} // verus!
