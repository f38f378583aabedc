//! The session coordinator: one table owning one board, at most two human
//! seats, and an optional engine bound to a vacant seat. Every mutation of
//! the table passes through it, and each mutating operation reports the
//! events to deliver, each addressed to a seated human. When a human move
//! leaves the game open and the turn passes to the engine's seat, the
//! engine's reply is applied in the same operation, so no third actor can
//! slip a move between the two.

use vstd::prelude::*;

use crate::ai::AIPlayer;
use crate::ai::recommend_spec;
use crate::board::Board;
use crate::board::GameError;
use crate::board::Move;
use crate::board::Outcome;
use crate::board::PlayerRole;
use crate::board::cell_index;
use crate::board::empty_grid;
use crate::board::grid_full;
use crate::board::place_error;
use crate::board::wins;
use crate::message::GameMessage;
use crate::message::Outgoing;
use crate::message::is_connected;
use crate::message::is_disconnected;
use crate::message::is_move;
use crate::message::is_over;
use crate::message::is_shutdown;
use crate::message::is_status;
use crate::message::is_turn_note;

verus! {

/// One of the two roles has a row of five on `g`.
pub open spec fn someone_wins(g: Seq<Option<PlayerRole>>) -> bool {
    wins(g, PlayerRole::Black) || wins(g, PlayerRole::White)
}

/// The game on `g` is over: a row of five exists or no cell is empty.
pub open spec fn terminal(g: Seq<Option<PlayerRole>>) -> bool {
    someone_wins(g) || grid_full(g)
}

/// `o` faithfully describes the game state on `g`.
pub open spec fn outcome_ok(o: Outcome, g: Seq<Option<PlayerRole>>) -> bool {
    match o {
        Outcome::Win(p) => wins(g, p),
        Outcome::Draw => grid_full(g) && !someone_wins(g),
        Outcome::InProgress => !terminal(g),
    }
}

/// The winner an outcome carries: `None` for a draw or an open game.
pub open spec fn winner_of(o: Outcome) -> Option<PlayerRole> {
    match o {
        Outcome::Win(p) => Some(p),
        _ => None,
    }
}

/// A move notice and a board snapshot to every seated human, in seat
/// order, then - when the seat now holding the turn is human - a turn
/// notification to it.
pub open spec fn move_block_ok(
    evs: Seq<Outgoing>,
    hs: Seq<PlayerRole>,
    row: int,
    col: int,
    g: Seq<Option<PlayerRole>>,
    t: PlayerRole,
    notify: bool,
) -> bool {
    &&& evs.len() == 2 * hs.len() + (if notify {
        1int
    } else {
        0
    })
    &&& forall|k: int|
        0 <= k < hs.len() ==> is_move(evs[2 * k], #[trigger] hs[k], row, col) && is_status(
            evs[2 * k + 1],
            hs[k],
            g,
            t,
        )
    &&& (notify ==> is_turn_note(evs[2 * hs.len() as int], t, t))
}

/// A game-over notice with winner `w` to every seated human, in seat
/// order.
pub open spec fn over_block_ok(evs: Seq<Outgoing>, hs: Seq<PlayerRole>, w: Option<
    PlayerRole,
>) -> bool {
    &&& evs.len() == hs.len()
    &&& forall|k: int| 0 <= k < hs.len() ==> is_over(evs[k], #[trigger] hs[k], w)
}

/// The events a completed join emits: a board snapshot to the joiner, a
/// joined notice to every seated human (the joiner included), and - once
/// the table is ready and the turn rests on a human seat - a turn
/// notification to that seat.
pub open spec fn join_events_ok(
    evs: Seq<Outgoing>,
    post: Game,
    role: PlayerRole,
    name: Seq<char>,
) -> bool {
    let hs = post.humans_seq();
    let notify = post.table_ready() && post.has_human(post.board_turn());
    &&& evs.len() == 1 + hs.len() + (if notify {
        1int
    } else {
        0
    })
    &&& is_status(evs[0], role, post.grid(), post.board_turn())
    &&& forall|k: int| 0 <= k < hs.len() ==> is_connected(evs[1 + k], #[trigger] hs[k], role, name)
    &&& (notify ==> is_turn_note(evs[1 + hs.len() as int], post.board_turn(), post.board_turn()))
}

/// What an accepted move does to the table and which events it emits.
/// The human's mark lands first; if that ends the game the table is
/// finished and game-over notices follow the move notices. Otherwise, if
/// the turn now rests on the engine's seat, the engine's recommendation
/// lands in the same step, with its own notices, and the game may end
/// there instead.
pub open spec fn submit_effects_ok(
    pre: Game,
    player: PlayerRole,
    row: int,
    col: int,
    post: Game,
    outcome: Outcome,
    evs: Seq<Outgoing>,
) -> bool {
    let g1 = pre.grid().update(cell_index(row, col), Some(player));
    let t1 = player.other();
    let hs = pre.humans_seq();
    let note1 = pre.has_human(t1);
    let l1 = 2 * hs.len() + (if note1 {
        1int
    } else {
        0
    });
    if terminal(g1) {
        &&& post.grid() == g1
        &&& post.board_turn() == t1
        &&& post.is_finished()
        &&& outcome_ok(outcome, g1)
        &&& outcome != Outcome::InProgress
        &&& evs.len() == l1 + hs.len()
        &&& move_block_ok(evs.subrange(0, l1), hs, row, col, g1, t1, note1)
        &&& over_block_ok(evs.subrange(l1, evs.len() as int), hs, winner_of(outcome))
    } else if pre.ai_role() == Some(t1) {
        match recommend_spec(g1, t1, pre.spec_depth()) {
            None => false,
            Some(i) => {
                let g2 = g1.update(i, Some(t1));
                let t2 = t1.other();
                let note2 = pre.has_human(t2);
                let l2 = 2 * hs.len() + (if note2 {
                    1int
                } else {
                    0
                });
                &&& post.grid() == g2
                &&& post.board_turn() == t2
                &&& (post.is_finished() <==> terminal(g2))
                &&& outcome_ok(outcome, g2)
                &&& move_block_ok(evs.subrange(0, l1), hs, row, col, g1, t1, note1)
                &&& move_block_ok(evs.subrange(l1, l1 + l2), hs, i / 15, i % 15, g2, t2, note2)
                &&& if terminal(g2) {
                    outcome != Outcome::InProgress && evs.len() == l1 + l2 + hs.len()
                        && over_block_ok(
                        evs.subrange(l1 + l2, evs.len() as int),
                        hs,
                        winner_of(outcome),
                    )
                } else {
                    outcome == Outcome::InProgress && evs.len() == l1 + l2
                }
            },
        }
    } else {
        &&& post.grid() == g1
        &&& post.board_turn() == t1
        &&& !post.is_finished()
        &&& outcome == Outcome::InProgress
        &&& evs.len() == l1
        &&& move_block_ok(evs, hs, row, col, g1, t1, note1)
    }
}

/// One table: the board, the two human seats with the participants'
/// names, the engine's seat if one is bound, whether the game has ended,
/// and the engine's look-ahead depth.
pub struct Game {
    board: Board,
    black: Option<String>,
    white: Option<String>,
    ai: Option<PlayerRole>,
    finished: bool,
    depth: usize,
}

impl Game {
    pub closed spec fn spec_board(&self) -> Board {
        self.board
    }

    /// The grid of the table's board.
    pub open spec fn grid(&self) -> Seq<Option<PlayerRole>> {
        self.spec_board().grid()
    }

    /// The role holding the turn on the table's board.
    pub open spec fn board_turn(&self) -> PlayerRole {
        self.spec_board().turn()
    }

    /// Whether a human is seated at `role`.
    pub closed spec fn has_human(&self, role: PlayerRole) -> bool {
        match role {
            PlayerRole::Black => self.black is Some,
            PlayerRole::White => self.white is Some,
        }
    }

    /// The display name of the human seated at `role`.
    pub closed spec fn human_name(&self, role: PlayerRole) -> Seq<char> {
        match role {
            PlayerRole::Black => self.black->0@,
            PlayerRole::White => self.white->0@,
        }
    }

    /// The seat the engine plays, if one is bound.
    pub closed spec fn ai_role(&self) -> Option<PlayerRole> {
        self.ai
    }

    /// Whether the game on this table has ended.
    pub closed spec fn is_finished(&self) -> bool {
        self.finished
    }

    /// The engine's configured look-ahead depth.
    pub closed spec fn spec_depth(&self) -> nat {
        self.depth as nat
    }

    pub open spec fn human_count(&self) -> int {
        (if self.has_human(PlayerRole::Black) {
            1int
        } else {
            0
        }) + (if self.has_human(PlayerRole::White) {
            1int
        } else {
            0
        })
    }

    /// The seated humans, Black seat first.
    pub open spec fn humans_seq(&self) -> Seq<PlayerRole> {
        if self.has_human(PlayerRole::Black) && self.has_human(PlayerRole::White) {
            seq![PlayerRole::Black, PlayerRole::White]
        } else if self.has_human(PlayerRole::Black) {
            seq![PlayerRole::Black]
        } else if self.has_human(PlayerRole::White) {
            seq![PlayerRole::White]
        } else {
            Seq::empty()
        }
    }

    /// Two active actors are present: two humans, or a human and the
    /// engine.
    pub open spec fn table_ready(&self) -> bool {
        self.human_count() + (if self.ai_role() is Some {
            1int
        } else {
            0
        }) >= 2
    }

    /// The table is well formed: the board is, and a bound engine sits at
    /// a seat with no human while a human sits across from it.
    pub open spec fn wf(&self) -> bool {
        &&& self.spec_board().wf()
        &&& match self.ai_role() {
            Some(r) => !self.has_human(r) && self.has_human(r.other()),
            None => true,
        }
    }

    /// Both tables seat the same participants, engine and depth.
    pub open spec fn seats_eq(a: Game, b: Game) -> bool {
        &&& a.has_human(PlayerRole::Black) == b.has_human(PlayerRole::Black)
        &&& a.has_human(PlayerRole::White) == b.has_human(PlayerRole::White)
        &&& (a.has_human(PlayerRole::Black) ==> a.human_name(PlayerRole::Black) == b.human_name(
            PlayerRole::Black,
        ))
        &&& (a.has_human(PlayerRole::White) ==> a.human_name(PlayerRole::White) == b.human_name(
            PlayerRole::White,
        ))
        &&& a.ai_role() == b.ai_role()
        &&& a.spec_depth() == b.spec_depth()
    }

    /// A fresh, empty table with the default look-ahead depth.
    pub fn new() -> (g: Game)
        ensures
            g.wf(),
            g.grid() == empty_grid(),
            g.board_turn() == PlayerRole::Black,
            !g.has_human(PlayerRole::Black),
            !g.has_human(PlayerRole::White),
            g.ai_role() is None,
            !g.is_finished(),
            g.spec_depth() == 3,
    {
        Game {
            board: Board::new(),
            black: None,
            white: None,
            ai: None,
            finished: false,
            depth: 3,
        }
    }

    /// A fresh, empty table with a chosen look-ahead depth for the engine.
    pub fn with_search_depth(depth: usize) -> (g: Game)
        ensures
            g.wf(),
            g.grid() == empty_grid(),
            g.board_turn() == PlayerRole::Black,
            !g.has_human(PlayerRole::Black),
            !g.has_human(PlayerRole::White),
            g.ai_role() is None,
            !g.is_finished(),
            g.spec_depth() == depth,
    {
        Game { board: Board::new(), black: None, white: None, ai: None, finished: false, depth }
    }

    /// The role the next joining human would be assigned: `None` when both
    /// seats are taken, the Black seat on an empty table, otherwise the
    /// seat across from the seated human.
    pub open spec fn next_role(&self) -> Option<PlayerRole> {
        if self.human_count() >= 2 {
            None
        } else if self.human_count() == 0 {
            Some(PlayerRole::Black)
        } else if self.has_human(PlayerRole::Black) {
            Some(PlayerRole::White)
        } else {
            Some(PlayerRole::Black)
        }
    }

    /// The role a newly connecting human would occupy, `None` when the
    /// table is full of humans.
    pub fn get_player_role(&self) -> (r: Option<PlayerRole>)
        ensures
            r == self.next_role(),
    {
        if self.black.is_some() && self.white.is_some() {
            None
        } else if self.black.is_none() && self.white.is_none() {
            Some(PlayerRole::Black)
        } else if self.black.is_some() {
            Some(PlayerRole::White)
        } else {
            Some(PlayerRole::Black)
        }
    }

    /// Whether the seat now holding the turn is a human's.
    fn turn_is_human(&self) -> (r: bool)
        ensures
            r == self.has_human(self.board_turn()),
    {
        match self.board.current_turn() {
            PlayerRole::Black => self.black.is_some(),
            PlayerRole::White => self.white.is_some(),
        }
    }

    /// A move notice and a fresh snapshot for every seated human, then a
    /// turn notification when the turn rests on a human seat.
    fn move_events(&self, row: usize, col: usize) -> (evs: Vec<Outgoing>)
        requires
            self.wf(),
        ensures
            move_block_ok(
                evs@,
                self.humans_seq(),
                row as int,
                col as int,
                self.grid(),
                self.board_turn(),
                self.has_human(self.board_turn()),
            ),
    {
        let mut evs: Vec<Outgoing> = Vec::new();
        if self.black.is_some() {
            evs.push(Outgoing { to: PlayerRole::Black, msg: GameMessage::Move { row, col } });
            evs.push(
                Outgoing {
                    to: PlayerRole::Black,
                    msg: GameMessage::Status {
                        board: self.board.snapshot(),
                        current_player: self.board.current_turn(),
                    },
                },
            );
        }
        if self.white.is_some() {
            evs.push(Outgoing { to: PlayerRole::White, msg: GameMessage::Move { row, col } });
            evs.push(
                Outgoing {
                    to: PlayerRole::White,
                    msg: GameMessage::Status {
                        board: self.board.snapshot(),
                        current_player: self.board.current_turn(),
                    },
                },
            );
        }
        let t = self.board.current_turn();
        if self.turn_is_human() {
            evs.push(Outgoing { to: t, msg: GameMessage::TurnNotification { player: t } });
        }
        evs
    }

    /// A game-over notice for every seated human.
    fn over_events(&self, outcome: Outcome) -> (evs: Vec<Outgoing>)
        requires
            self.wf(),
        ensures
            over_block_ok(evs@, self.humans_seq(), winner_of(outcome)),
    {
        let w = match outcome {
            Outcome::Win(p) => Some(p),
            _ => None,
        };
        let mut evs: Vec<Outgoing> = Vec::new();
        if self.black.is_some() {
            evs.push(Outgoing { to: PlayerRole::Black, msg: GameMessage::GameOver { winner: w } });
        }
        if self.white.is_some() {
            evs.push(Outgoing { to: PlayerRole::White, msg: GameMessage::GameOver { winner: w } });
        }
        evs
    }

    /// The state of the game on the board as it stands.
    fn evaluate_outcome(&self) -> (o: Outcome)
        requires
            self.wf(),
        ensures
            outcome_ok(o, self.grid()),
    {
        match self.board.check_winner() {
            Some(p) => Outcome::Win(p),
            None => {
                if self.board.is_full() {
                    Outcome::Draw
                } else {
                    Outcome::InProgress
                }
            },
        }
    }

    /// Seat a joining human. The first joiner takes the Black seat, the
    /// second the one across; a third is refused with `TableFull`. While
    /// exactly one human is seated the engine is bound to the seat across
    /// from it, and a second human displaces the engine. The returned
    /// events are a snapshot for the joiner, a joined notice to every
    /// seated human and, once the table is ready and a human holds the
    /// turn, a turn notification.
    pub fn join(&mut self, username: String) -> (r: Result<(PlayerRole, Vec<Outgoing>), GameError>)
        requires
            old(self).wf(),
        ensures
            final(self).wf(),
            final(self).is_finished() == old(self).is_finished(),
            final(self).spec_depth() == old(self).spec_depth(),
            final(self).grid() == old(self).grid(),
            final(self).board_turn() == old(self).board_turn(),
            match r {
                Err(e) => e == GameError::TableFull && old(self).human_count() == 2
                    && Game::seats_eq(*final(self), *old(self)),
                Ok(rv) => {
                    let (role, evs) = rv;
                    &&& old(self).human_count() < 2
                    &&& Some(role) == old(self).next_role()
                    &&& final(self).has_human(role)
                    &&& final(self).human_name(role) == username@
                    &&& final(self).has_human(role.other()) == old(self).has_human(role.other())
                    &&& (old(self).has_human(role.other()) ==> final(self).human_name(role.other())
                        == old(self).human_name(role.other()))
                    &&& final(self).ai_role() == (if old(self).human_count() == 0 {
                        Some(role.other())
                    } else {
                        None::<PlayerRole>
                    })
                    &&& join_events_ok(evs@, *final(self), role, username@)
                },
            },
    {
        if self.black.is_some() && self.white.is_some() {
            return Err(GameError::TableFull);
        }
        let role = match self.get_player_role() {
            Some(r) => r,
            None => {
                proof {
                    assert(false);
                }
                return Err(GameError::TableFull);
            },
        };
        let was_empty = self.black.is_none() && self.white.is_none();
        let name_copy = username.clone();
        match role {
            PlayerRole::Black => self.black = Some(username),
            PlayerRole::White => self.white = Some(username),
        }
        if was_empty {
            self.ai = Some(role.other());
        } else {
            self.ai = None;
        }
        let mut evs: Vec<Outgoing> = Vec::new();
        evs.push(
            Outgoing {
                to: role,
                msg: GameMessage::Status {
                    board: self.board.snapshot(),
                    current_player: self.board.current_turn(),
                },
            },
        );
        if self.black.is_some() {
            evs.push(
                Outgoing {
                    to: PlayerRole::Black,
                    msg: GameMessage::PlayerConnected { player: role, username: name_copy.clone() },
                },
            );
        }
        if self.white.is_some() {
            evs.push(
                Outgoing {
                    to: PlayerRole::White,
                    msg: GameMessage::PlayerConnected { player: role, username: name_copy },
                },
            );
        }
        let actors = self.count_actors();
        let t = self.board.current_turn();
        if actors >= 2 && self.turn_is_human() {
            evs.push(Outgoing { to: t, msg: GameMessage::TurnNotification { player: t } });
        }
        Ok((role, evs))
    }

    /// How many actors are seated: humans plus a bound engine.
    fn count_actors(&self) -> (n: usize)
        ensures
            n as int == self.human_count() + (if self.ai_role() is Some {
                1int
            } else {
                0
            }),
    {
        let mut n: usize = 0;
        if self.black.is_some() {
            n = n + 1;
        }
        if self.white.is_some() {
            n = n + 1;
        }
        if self.ai.is_some() {
            n = n + 1;
        }
        n
    }

    /// Apply a move submitted by `player`, and the engine's reply when one
    /// is due, under one critical step. Refused with `TableNotReady` when
    /// fewer than two actors are seated or the game is over, and with the
    /// board's own error when the placement is invalid; a refused call
    /// changes nothing. An accepted call reports the resulting outcome and
    /// the events to deliver.
    pub fn submit_move(&mut self, player: PlayerRole, row: usize, col: usize) -> (r: Result<
        (Outcome, Vec<Outgoing>),
        GameError,
    >)
        requires
            old(self).wf(),
        ensures
            final(self).wf(),
            Game::seats_eq(*final(self), *old(self)),
            match r {
                Err(e) => {
                    &&& final(self).grid() == old(self).grid()
                    &&& final(self).board_turn() == old(self).board_turn()
                    &&& final(self).is_finished() == old(self).is_finished()
                    &&& if old(self).is_finished() || !old(self).table_ready() {
                        e == GameError::TableNotReady
                    } else {
                        Some(e) == place_error(
                            old(self).grid(),
                            old(self).board_turn(),
                            row as int,
                            col as int,
                            player,
                        )
                    }
                },
                Ok(rv) => {
                    let (outcome, evs) = rv;
                    &&& !old(self).is_finished()
                    &&& old(self).table_ready()
                    &&& place_error(
                        old(self).grid(),
                        old(self).board_turn(),
                        row as int,
                        col as int,
                        player,
                    ) is None
                    &&& submit_effects_ok(
                        *old(self),
                        player,
                        row as int,
                        col as int,
                        *final(self),
                        outcome,
                        evs@,
                    )
                },
            },
    {
        if self.finished {
            return Err(GameError::TableNotReady);
        }
        if self.count_actors() < 2 {
            return Err(GameError::TableNotReady);
        }
        match self.board.place(Move { row, col }, player) {
            Err(e) => {
                return Err(e);
            },
            Ok(()) => {},
        }
        let mut evs = self.move_events(row, col);
        let outcome1 = self.evaluate_outcome();
        match outcome1 {
            Outcome::InProgress => {},
            _ => {
                self.finished = true;
                let mut evs2 = self.over_events(outcome1);
                let ghost evs_before = evs@;
                let ghost evs2_snap = evs2@;
                evs.append(&mut evs2);
                proof {
                    assert(evs@.subrange(0, evs_before.len() as int) =~= evs_before);
                    assert(evs@.subrange(evs_before.len() as int, evs@.len() as int)
                        =~= evs2_snap);
                }
                return Ok((outcome1, evs));
            },
        }
        let ai_turn = match self.ai {
            Some(a) => {
                let t = self.board.current_turn();
                a == t
            },
            None => false,
        };
        if !ai_turn {
            return Ok((Outcome::InProgress, evs));
        }
        let ar = match self.ai {
            Some(a) => a,
            None => {
                proof {
                    assert(false);
                }
                return Err(GameError::TableNotReady);
            },
        };
        let engine = AIPlayer::with_depth(ar, self.depth);
        let rec = self.board.snapshot();
        let choice = match engine.make_move(&rec) {
            Ok(rc) => rc,
            Err(_) => {
                proof {
                    assert(false);
                }
                return Err(GameError::TableNotReady);
            },
        };
        let (r2, c2) = choice;
        match self.board.place(Move { row: r2, col: c2 }, ar) {
            Ok(()) => {},
            Err(_) => {
                proof {
                    assert(false);
                }
                return Err(GameError::TableNotReady);
            },
        }
        proof {
            vstd::arithmetic::div_mod::lemma_fundamental_div_mod_converse_div(
                cell_index(r2 as int, c2 as int),
                15,
                r2 as int,
                c2 as int,
            );
            vstd::arithmetic::div_mod::lemma_fundamental_div_mod_converse_mod(
                cell_index(r2 as int, c2 as int),
                15,
                r2 as int,
                c2 as int,
            );
        }
        let ghost evs_l1 = evs@;
        let mut evs2 = self.move_events(r2, c2);
        let ghost evs2_snap = evs2@;
        evs.append(&mut evs2);
        let outcome2 = self.evaluate_outcome();
        match outcome2 {
            Outcome::InProgress => {
                proof {
                    assert(evs@.subrange(0, evs_l1.len() as int) =~= evs_l1);
                    assert(evs@.subrange(evs_l1.len() as int, evs@.len() as int) =~= evs2_snap);
                }
                Ok((Outcome::InProgress, evs))
            },
            _ => {
                self.finished = true;
                let mut evs3 = self.over_events(outcome2);
                let ghost evs3_snap = evs3@;
                let ghost evs_l12 = evs@;
                evs.append(&mut evs3);
                proof {
                    assert(evs@.subrange(0, evs_l1.len() as int) =~= evs_l1);
                    assert(evs@.subrange(evs_l1.len() as int, evs_l12.len() as int)
                        =~= evs2_snap);
                    assert(evs@.subrange(evs_l12.len() as int, evs@.len() as int) =~= evs3_snap);
                }
                Ok((outcome2, evs))
            },
        }
    }

    /// Unseat `player`'s human, telling the humans that remain. When no
    /// human remains the table fully resets: a fresh board, no bound
    /// engine, the game open again.
    pub fn leave(&mut self, player: PlayerRole) -> (evs: Vec<Outgoing>)
        requires
            old(self).wf(),
        ensures
            final(self).wf(),
            final(self).spec_depth() == old(self).spec_depth(),
            !final(self).has_human(player),
            ({
                let remaining = final(self).humans_seq();
                &&& evs@.len() == remaining.len()
                &&& forall|k: int|
                    0 <= k < remaining.len() ==> is_disconnected(
                        evs@[k],
                        #[trigger] remaining[k],
                        player,
                    )
            }),
            if old(self).human_count() - (if old(self).has_human(player) {
                1int
            } else {
                0
            }) == 0 {
                &&& final(self).grid() == empty_grid()
                &&& final(self).board_turn() == PlayerRole::Black
                &&& final(self).ai_role() is None
                &&& !final(self).is_finished()
                &&& !final(self).has_human(PlayerRole::Black)
                &&& !final(self).has_human(PlayerRole::White)
            } else {
                &&& final(self).grid() == old(self).grid()
                &&& final(self).board_turn() == old(self).board_turn()
                &&& final(self).ai_role() == old(self).ai_role()
                &&& final(self).is_finished() == old(self).is_finished()
                &&& final(self).has_human(player.other()) == old(self).has_human(player.other())
                &&& (old(self).has_human(player.other()) ==> final(self).human_name(player.other())
                    == old(self).human_name(player.other()))
            },
    {
        match player {
            PlayerRole::Black => self.black = None,
            PlayerRole::White => self.white = None,
        }
        let mut evs: Vec<Outgoing> = Vec::new();
        if self.black.is_some() {
            evs.push(
                Outgoing { to: PlayerRole::Black, msg: GameMessage::PlayerDisconnected { player } },
            );
        }
        if self.white.is_some() {
            evs.push(
                Outgoing { to: PlayerRole::White, msg: GameMessage::PlayerDisconnected { player } },
            );
        }
        if self.black.is_none() && self.white.is_none() {
            self.board = Board::new();
            self.ai = None;
            self.finished = false;
        }
        evs
    }

    /// A shutdown notice for every seated human; the board is untouched.
    pub fn shutdown(&self) -> (evs: Vec<Outgoing>)
        ensures
            ({
                let hs = self.humans_seq();
                &&& evs@.len() == hs.len()
                &&& forall|k: int| 0 <= k < hs.len() ==> is_shutdown(evs@[k], #[trigger] hs[k])
            }),
    {
        let mut evs: Vec<Outgoing> = Vec::new();
        if self.black.is_some() {
            evs.push(Outgoing { to: PlayerRole::Black, msg: GameMessage::ServerShutdown });
        }
        if self.white.is_some() {
            evs.push(Outgoing { to: PlayerRole::White, msg: GameMessage::ServerShutdown });
        }
        evs
    }

    /// A read-only view of the table's board.
    pub fn board(&self) -> (b: &Board)
        ensures
            b.grid() == self.grid(),
            b.turn() == self.board_turn(),
    {
        &self.board
    }

    /// Whether the game on this table has ended.
    pub fn finished(&self) -> (r: bool)
        ensures
            r == self.is_finished(),
    {
        self.finished
    }

    /// The seat the engine plays, if one is bound.
    pub fn ai_controller(&self) -> (r: Option<PlayerRole>)
        ensures
            r == self.ai_role(),
    {
        self.ai
    }

    /// Whether a human is seated at `role`.
    pub fn has_participant(&self, role: PlayerRole) -> (r: bool)
        ensures
            r == self.has_human(role),
    {
        match role {
            PlayerRole::Black => self.black.is_some(),
            PlayerRole::White => self.white.is_some(),
        }
    }
}

} // verus!
