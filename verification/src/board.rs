//! The board: a fixed 15x15 grid of optional ownership marks plus the role
//! whose turn it is. A move either fully succeeds (mark placed, turn
//! flipped) or leaves the board untouched.

use vstd::prelude::*;

verus! {

/// The side of the board: one mark per grid cell.
pub const BOARD_SIZE: usize = 15;

/// Number of cells in the grid.
pub const CELL_COUNT: usize = 225;

/// One of the two competing sides.
#[derive(Clone, Copy, PartialEq, Eq, Hash, Debug, Structural)]
pub enum PlayerRole {
    Black,
    White,
}

impl PlayerRole {
    /// The opposing side; a total mapping with no third state.
    #[verifier::when_used_as_spec(spec_other)]
    pub fn other(&self) -> (r: PlayerRole)
        ensures
            r == self.spec_other(),
    {
        match self {
            PlayerRole::Black => PlayerRole::White,
            PlayerRole::White => PlayerRole::Black,
        }
    }

    pub open spec fn spec_other(&self) -> PlayerRole {
        match self {
            PlayerRole::Black => PlayerRole::White,
            PlayerRole::White => PlayerRole::Black,
        }
    }
}

/// Everything that a table operation can be refused with. All of these are
/// recoverable by the caller; none terminates the table.
#[derive(Clone, Copy, PartialEq, Eq, Debug, Structural)]
pub enum GameError {
    /// The requested cell lies outside the grid.
    OutOfBounds,
    /// The requested cell already holds a mark.
    PositionOccupied,
    /// The acting role does not hold the current turn.
    NotYourTurn,
    /// Two human participants are already seated.
    TableFull,
    /// Fewer than two active actors are present, or the game is over.
    TableNotReady,
    /// No empty cell is left to recommend.
    NoLegalMove,
}

/// A requested cell, 0-indexed.
#[derive(Clone, Copy, PartialEq, Eq, Debug, Structural)]
pub struct Move {
    pub row: usize,
    pub col: usize,
}

/// The state of a game, derived from the board and never stored with it.
#[derive(Clone, Copy, PartialEq, Eq, Debug, Structural)]
pub enum Outcome {
    InProgress,
    Win(PlayerRole),
    Draw,
}

pub open spec fn in_bounds(row: int, col: int) -> bool {
    0 <= row < 15 && 0 <= col < 15
}

/// Index of a cell in the row-major flat grid.
pub open spec fn cell_index(row: int, col: int) -> int {
    row * 15 + col
}

pub open spec fn grid_wf(g: Seq<Option<PlayerRole>>) -> bool {
    g.len() == 225
}

pub open spec fn cell_at(g: Seq<Option<PlayerRole>>, row: int, col: int) -> Option<PlayerRole> {
    g[cell_index(row, col)]
}

pub open spec fn empty_grid() -> Seq<Option<PlayerRole>> {
    Seq::new(225, |i: int| None)
}

pub open spec fn grid_full(g: Seq<Option<PlayerRole>>) -> bool {
    forall|i: int| 0 <= i < 225 ==> g[i] is Some
}

/// Why a requested placement is refused, or `None` when it is accepted:
/// out-of-bounds cells first, then turn ownership, then occupancy.
pub open spec fn place_error(
    g: Seq<Option<PlayerRole>>,
    turn: PlayerRole,
    row: int,
    col: int,
    role: PlayerRole,
) -> Option<GameError> {
    if !in_bounds(row, col) {
        Some(GameError::OutOfBounds)
    } else if role != turn {
        Some(GameError::NotYourTurn)
    } else if cell_at(g, row, col) is Some {
        Some(GameError::PositionOccupied)
    } else {
        None
    }
}

/// Row step of direction `d`: the four axes are, in order, horizontal,
/// vertical, diagonal and anti-diagonal.
pub open spec fn dir_row(d: int) -> int {
    if d == 0 {
        0
    } else {
        1
    }
}

/// Column step of direction `d`.
pub open spec fn dir_col(d: int) -> int {
    if d == 0 {
        1
    } else if d == 1 {
        0
    } else if d == 2 {
        1
    } else {
        -1
    }
}

/// How many consecutive cells owned by `role` follow (row, col) when
/// stepping by (dr, dc), the cell (row, col) itself not counted, capped at
/// `fuel`.
pub open spec fn run_len(
    g: Seq<Option<PlayerRole>>,
    row: int,
    col: int,
    dr: int,
    dc: int,
    role: PlayerRole,
    fuel: nat,
) -> nat
    decreases fuel,
{
    if fuel == 0 {
        0
    } else if in_bounds(row + dr, col + dc) && cell_at(g, row + dr, col + dc) == Some(role) {
        1 + run_len(g, row + dr, col + dc, dr, dc, role, (fuel - 1) as nat)
    } else {
        0
    }
}

/// Whether the first cell past the consecutive `role` marks that follow
/// (row, col) in direction (dr, dc) lies inside the grid and is empty,
/// looking at most `fuel` cells ahead.
pub open spec fn open_beyond(
    g: Seq<Option<PlayerRole>>,
    row: int,
    col: int,
    dr: int,
    dc: int,
    role: PlayerRole,
    fuel: nat,
) -> bool
    decreases fuel,
{
    if fuel > 0 && in_bounds(row + dr, col + dc) && cell_at(g, row + dr, col + dc) == Some(role) {
        open_beyond(g, row + dr, col + dc, dr, dc, role, (fuel - 1) as nat)
    } else {
        fuel > 0 && in_bounds(row + dr, col + dc) && cell_at(g, row + dr, col + dc) is None
    }
}

/// The occupied cell (row, col) lies on a row of at least five consecutive
/// `role` marks along axis `d`: together with the consecutive marks ahead of
/// it and behind it, the line through it has length five or more.
pub open spec fn line_through(
    g: Seq<Option<PlayerRole>>,
    row: int,
    col: int,
    d: int,
    role: PlayerRole,
) -> bool {
    &&& in_bounds(row, col)
    &&& cell_at(g, row, col) == Some(role)
    &&& run_len(g, row, col, dir_row(d), dir_col(d), role, 4) + run_len(
        g,
        row,
        col,
        -dir_row(d),
        -dir_col(d),
        role,
        4,
    ) >= 4
}

/// `role` has a row of at least five consecutive marks somewhere on the
/// grid, along one of the four axes. Equivalently: some maximal run of
/// same-role marks has length five or more.
pub open spec fn wins(g: Seq<Option<PlayerRole>>, role: PlayerRole) -> bool {
    exists|row: int, col: int, d: int|
        0 <= d < 4 && #[trigger] line_through(g, row, col, d, role)
}

/// The step pair of axis `d`, as machine integers.
pub(crate) fn direction(d: usize) -> (r: (i32, i32))
    requires
        d < 4,
    ensures
        r.0 as int == dir_row(d as int),
        r.1 as int == dir_col(d as int),
        -1 <= r.0 <= 1,
        -1 <= r.1 <= 1,
{
    if d == 0 {
        (0, 1)
    } else if d == 1 {
        (1, 0)
    } else if d == 2 {
        (1, 1)
    } else {
        (1, -1)
    }
}

/// Grid of optional ownership marks and the role holding the turn.
#[derive(Debug, PartialEq)]
pub struct Board {
    cells: Vec<Option<PlayerRole>>,
    current_player: PlayerRole,
}

impl Board {
    /// The grid as a row-major sequence of cells.
    pub closed spec fn grid(&self) -> Seq<Option<PlayerRole>> {
        self.cells@
    }

    /// The role that holds the current turn.
    pub closed spec fn turn(&self) -> PlayerRole {
        self.current_player
    }

    pub open spec fn wf(&self) -> bool {
        grid_wf(self.grid())
    }

    /// A fresh board: every cell empty, Black to move.
    pub fn new() -> (b: Board)
        ensures
            b.wf(),
            b.grid() == empty_grid(),
            b.turn() == PlayerRole::Black,
    {
        let mut cells: Vec<Option<PlayerRole>> = Vec::new();
        let mut i: usize = 0;
        while i < 225
            invariant
                i <= 225,
                cells@.len() == i,
                forall|j: int| 0 <= j < i ==> cells@[j] is None,
            decreases 225 - i,
        {
            cells.push(None);
            i = i + 1;
        }
        proof {
            assert(cells@ =~= empty_grid());
        }
        Board { cells, current_player: PlayerRole::Black }
    }

    /// Rebuild a board from a row-major list of cells and a turn, as a
    /// client does from a received snapshot; refused unless exactly the
    /// grid's number of cells is given.
    pub fn from_cells(cells: Vec<Option<PlayerRole>>, turn: PlayerRole) -> (r: Option<Board>)
        ensures
            match r {
                Some(b) => cells@.len() == 225 && b.wf() && b.grid() == cells@ && b.turn() == turn,
                None => cells@.len() != 225,
            },
    {
        if cells.len() == 225 {
            Some(Board { cells, current_player: turn })
        } else {
            None
        }
    }

    /// Read one cell of the grid.
    pub fn get(&self, row: usize, col: usize) -> (r: Option<PlayerRole>)
        requires
            self.wf(),
            row < 15,
            col < 15,
        ensures
            r == cell_at(self.grid(), row as int, col as int),
    {
        self.cells[row * 15 + col]
    }

    /// The role that holds the current turn.
    pub fn current_turn(&self) -> (r: PlayerRole)
        ensures
            r == self.turn(),
    {
        self.current_player
    }

    /// Place a mark for `role` at `mv`. On success the cell is set and the
    /// turn flips, atomically; on failure nothing changes and the error says
    /// why: `OutOfBounds`, then `NotYourTurn`, then `PositionOccupied`.
    pub fn place(&mut self, mv: Move, role: PlayerRole) -> (r: Result<(), GameError>)
        requires
            old(self).wf(),
        ensures
            final(self).wf(),
            final(self).grid() == grid_after(
                old(self).grid(),
                old(self).turn(),
                mv.row as int,
                mv.col as int,
                role,
            ),
            final(self).turn() == turn_after(
                old(self).grid(),
                old(self).turn(),
                mv.row as int,
                mv.col as int,
                role,
            ),
            match r {
                Ok(()) => place_error(
                    old(self).grid(),
                    old(self).turn(),
                    mv.row as int,
                    mv.col as int,
                    role,
                ) is None && final(self).grid() == old(self).grid().update(
                    cell_index(mv.row as int, mv.col as int),
                    Some(role),
                ) && final(self).turn() == role.other(),
                Err(e) => Some(e) == place_error(
                    old(self).grid(),
                    old(self).turn(),
                    mv.row as int,
                    mv.col as int,
                    role,
                ) && final(self).grid() == old(self).grid() && final(self).turn() == old(self).turn(),
            },
    {
        if mv.row >= 15 || mv.col >= 15 {
            return Err(GameError::OutOfBounds);
        }
        if role != self.current_player {
            return Err(GameError::NotYourTurn);
        }
        if self.cells[mv.row * 15 + mv.col].is_some() {
            return Err(GameError::PositionOccupied);
        }
        self.cells.set(mv.row * 15 + mv.col, Some(role));
        self.current_player = role.other();
        Ok(())
    }

    /// Place a mark at `(row, col)` for whichever role holds the turn.
    pub fn make_move(&mut self, row: usize, col: usize) -> (r: Result<(), GameError>)
        requires
            old(self).wf(),
        ensures
            final(self).wf(),
            match r {
                Ok(()) => place_error(
                    old(self).grid(),
                    old(self).turn(),
                    row as int,
                    col as int,
                    old(self).turn(),
                ) is None && final(self).grid() == old(self).grid().update(
                    cell_index(row as int, col as int),
                    Some(old(self).turn()),
                ) && final(self).turn() == old(self).turn().other(),
                Err(e) => Some(e) == place_error(
                    old(self).grid(),
                    old(self).turn(),
                    row as int,
                    col as int,
                    old(self).turn(),
                ) && final(self).grid() == old(self).grid() && final(self).turn() == old(self).turn(),
            },
    {
        let role = self.current_player;
        self.place(Move { row, col }, role)
    }

    /// True iff every cell of the grid is occupied.
    pub fn is_full(&self) -> (r: bool)
        requires
            self.wf(),
        ensures
            r == grid_full(self.grid()),
    {
        let mut i: usize = 0;
        while i < 225
            invariant
                i <= 225,
                self.wf(),
                forall|j: int| 0 <= j < i ==> self.grid()[j] is Some,
            decreases 225 - i,
        {
            if self.cells[i].is_none() {
                return false;
            }
            i = i + 1;
        }
        true
    }

    /// Walk from (row, col) by (dr, dc) over consecutive `role` marks:
    /// their number (capped at four) and whether the cell just past them is
    /// inside the grid and empty.
    pub(crate) fn scan_run(&self, row: usize, col: usize, dr: i32, dc: i32, role: PlayerRole) -> (res: (
        u32,
        bool,
    ))
        requires
            self.wf(),
            row < 15,
            col < 15,
            -1 <= dr <= 1,
            -1 <= dc <= 1,
        ensures
            res.0 <= 4,
            res.0 == run_len(self.grid(), row as int, col as int, dr as int, dc as int, role, 4),
            res.1 == open_beyond(self.grid(), row as int, col as int, dr as int, dc as int, role, 4),
    {
        let mut n: u32 = 0;
        let mut r: i32 = row as i32;
        let mut c: i32 = col as i32;
        loop
            invariant
                self.wf(),
                n <= 4,
                -1 <= dr <= 1,
                -1 <= dc <= 1,
                in_bounds(r as int, c as int),
                run_len(self.grid(), row as int, col as int, dr as int, dc as int, role, 4) == n
                    + run_len(self.grid(), r as int, c as int, dr as int, dc as int, role, (4 - n) as nat),
                open_beyond(self.grid(), row as int, col as int, dr as int, dc as int, role, 4)
                    == open_beyond(self.grid(), r as int, c as int, dr as int, dc as int, role, (4 - n) as nat),
            decreases 4 - n,
        {
            if n >= 4 {
                return (n, false);
            }
            let nr = r + dr;
            let nc = c + dc;
            if nr < 0 || nr >= 15 || nc < 0 || nc >= 15 {
                return (n, false);
            }
            match self.get(nr as usize, nc as usize) {
                Some(p) => {
                    if p == role {
                        n = n + 1;
                        r = nr;
                        c = nc;
                    } else {
                        return (n, false);
                    }
                },
                None => {
                    return (n, true);
                },
            }
        }
    }

    /// Scan every occupied cell along each of the four axes and return a
    /// role holding a row of five or more, or `None` when neither role has
    /// one anywhere on the grid.
    pub fn check_winner(&self) -> (r: Option<PlayerRole>)
        requires
            self.wf(),
        ensures
            match r {
                Some(p) => wins(self.grid(), p),
                None => forall|p: PlayerRole| !wins(self.grid(), p),
            },
    {
        let mut row: usize = 0;
        while row < 15
            invariant
                self.wf(),
                row <= 15,
                forall|r2: int, c2: int, d2: int, p: PlayerRole|
                    0 <= r2 < row && 0 <= c2 < 15 && 0 <= d2 < 4 ==> !(#[trigger] line_through(
                        self.grid(),
                        r2,
                        c2,
                        d2,
                        p,
                    )),
            decreases 15 - row,
        {
            let mut col: usize = 0;
            while col < 15
                invariant
                    self.wf(),
                    row < 15,
                    col <= 15,
                    forall|r2: int, c2: int, d2: int, p: PlayerRole|
                        0 <= r2 < row && 0 <= c2 < 15 && 0 <= d2 < 4 ==> !(#[trigger] line_through(
                            self.grid(),
                            r2,
                            c2,
                            d2,
                            p,
                        )),
                    forall|c2: int, d2: int, p: PlayerRole|
                        0 <= c2 < col && 0 <= d2 < 4 ==> !(#[trigger] line_through(
                            self.grid(),
                            row as int,
                            c2,
                            d2,
                            p,
                        )),
                decreases 15 - col,
            {
                if let Some(player) = self.get(row, col) {
                    let mut d: usize = 0;
                    while d < 4
                        invariant
                            self.wf(),
                            row < 15,
                            col < 15,
                            cell_at(self.grid(), row as int, col as int) == Some(player),
                            d <= 4,
                            forall|d2: int|
                                0 <= d2 < d ==> !(#[trigger] line_through(
                                    self.grid(),
                                    row as int,
                                    col as int,
                                    d2,
                                    player,
                                )),
                        decreases 4 - d,
                    {
                        let (dr, dc) = direction(d);
                        let (f, _) = self.scan_run(row, col, dr, dc, player);
                        let (b, _) = self.scan_run(row, col, -dr, -dc, player);
                        if f + b >= 4 {
                            proof {
                                assert(line_through(self.grid(), row as int, col as int, d as int, player));
                            }
                            return Some(player);
                        }
                        d = d + 1;
                    }
                    proof {
                        assert forall|d2: int, p: PlayerRole| 0 <= d2 < 4 implies !line_through(
                            self.grid(),
                            row as int,
                            col as int,
                            d2,
                            p,
                        ) by {
                            if p != player {
                                assert(cell_at(self.grid(), row as int, col as int) != Some(p));
                            }
                        }
                    }
                } else {
                    proof {
                        assert forall|d2: int, p: PlayerRole| 0 <= d2 < 4 implies !line_through(
                            self.grid(),
                            row as int,
                            col as int,
                            d2,
                            p,
                        ) by {
                            assert(cell_at(self.grid(), row as int, col as int) is None);
                        }
                    }
                }
                col = col + 1;
            }
            row = row + 1;
        }
        proof {
            assert forall|p: PlayerRole| !wins(self.grid(), p) by {
                assert forall|r2: int, c2: int, d2: int|
                    !(0 <= d2 < 4 && #[trigger] line_through(self.grid(), r2, c2, d2, p)) by {
                    if 0 <= d2 < 4 && in_bounds(r2, c2) {
                        assert(!line_through(self.grid(), r2, c2, d2, p));
                    }
                }
            }
        }
        None
    }

    /// A deep copy of the board, used as a snapshot by the read-only
    /// components so that they never observe a mutation in progress.
    pub fn snapshot(&self) -> (b: Board)
        requires
            self.wf(),
        ensures
            b.wf(),
            b.grid() == self.grid(),
            b.turn() == self.turn(),
    {
        let mut cells: Vec<Option<PlayerRole>> = Vec::new();
        let mut i: usize = 0;
        while i < 225
            invariant
                i <= 225,
                self.wf(),
                cells@.len() == i,
                forall|j: int| 0 <= j < i ==> cells@[j] == self.grid()[j],
            decreases 225 - i,
        {
            cells.push(self.cells[i]);
            i = i + 1;
        }
        proof {
            assert(cells@ =~= self.grid());
        }
        Board { cells, current_player: self.current_player }
    }
}

/// On a board with every cell empty neither role has a row of five, so
/// the winner scan returns `None` there.
pub proof fn lemma_empty_grid_no_win(role: PlayerRole)
    ensures
        !wins(empty_grid(), role),
{
    assert forall|row: int, col: int, d: int|
        !(0 <= d < 4 && #[trigger] line_through(empty_grid(), row, col, d, role)) by {
        if in_bounds(row, col) {
            assert(cell_at(empty_grid(), row, col) is None);
        }
    }
}

/// The grid after a placement: updated on acceptance, untouched on refusal.
pub open spec fn grid_after(
    g: Seq<Option<PlayerRole>>,
    turn: PlayerRole,
    row: int,
    col: int,
    role: PlayerRole,
) -> Seq<Option<PlayerRole>> {
    if place_error(g, turn, row, col, role) is None {
        g.update(cell_index(row, col), Some(role))
    } else {
        g
    }
}

/// The turn after a placement: flipped on acceptance, untouched on refusal.
pub open spec fn turn_after(
    g: Seq<Option<PlayerRole>>,
    turn: PlayerRole,
    row: int,
    col: int,
    role: PlayerRole,
) -> PlayerRole {
    if place_error(g, turn, row, col, role) is None {
        role.other()
    } else {
        turn
    }
}

/// A placement never changes two cells: an accepted one touches exactly
/// the requested cell, and a refused one touches none and leaves the
/// turn where it was.
pub proof fn lemma_place_changes_one_cell(
    g: Seq<Option<PlayerRole>>,
    turn: PlayerRole,
    row: int,
    col: int,
    role: PlayerRole,
)
    requires
        grid_wf(g),
    ensures
        forall|i: int|
            0 <= i < 225 && i != cell_index(row, col) ==> grid_after(g, turn, row, col, role)[i]
                == g[i],
        place_error(g, turn, row, col, role) is Some ==> grid_after(g, turn, row, col, role) == g
            && turn_after(g, turn, row, col, role) == turn,
{
}

/// A rejected placement leaves grid and turn untouched, so submitting the
/// same invalid move a second time is refused with the same error and the
/// board is still untouched.
pub proof fn lemma_rejection_idempotent(
    g: Seq<Option<PlayerRole>>,
    turn: PlayerRole,
    row: int,
    col: int,
    role: PlayerRole,
)
    requires
        place_error(g, turn, row, col, role) is Some,
    ensures
        grid_after(g, turn, row, col, role) == g,
        turn_after(g, turn, row, col, role) == turn,
        place_error(
            grid_after(g, turn, row, col, role),
            turn_after(g, turn, row, col, role),
            row,
            col,
            role,
        ) == place_error(g, turn, row, col, role),
        grid_after(
            grid_after(g, turn, row, col, role),
            turn_after(g, turn, row, col, role),
            row,
            col,
            role,
        ) == g,
{
}

} // verus!
