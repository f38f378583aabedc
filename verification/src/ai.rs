//! The heuristic move-search engine. It recommends a cell in strict
//! priority order: an immediate winning cell first, then a cell denying the
//! opponent an immediate five or an open four, then the cell with the best
//! heuristic score under a depth-limited look-ahead.

use vstd::prelude::*;

use crate::board::Board;
use crate::board::GameError;
use crate::board::PlayerRole;
use crate::board::cell_at;
use crate::board::cell_index;
use crate::board::dir_col;
use crate::board::dir_row;
use crate::board::direction;
use crate::board::grid_full;
use crate::board::grid_wf;
use crate::board::in_bounds;
use crate::board::open_beyond;
use crate::board::run_len;

verus! {

/// Hypothetically marking (row, col) for `role` completes a row of five or
/// more along axis `d`: the consecutive `role` marks just ahead of and just
/// behind the cell add up to at least four.
pub open spec fn five_in_dir(
    g: Seq<Option<PlayerRole>>,
    row: int,
    col: int,
    d: int,
    role: PlayerRole,
) -> bool {
    run_len(g, row, col, dir_row(d), dir_col(d), role, 4) + run_len(
        g,
        row,
        col,
        -dir_row(d),
        -dir_col(d),
        role,
        4,
    ) >= 4
}

/// Hypothetically marking (row, col) for `role` completes a row of five
/// along some axis.
pub open spec fn creates_five(
    g: Seq<Option<PlayerRole>>,
    row: int,
    col: int,
    role: PlayerRole,
) -> bool {
    exists|d: int| 0 <= d < 4 && #[trigger] five_in_dir(g, row, col, d, role)
}

/// Hypothetically marking (row, col) for `role` yields, along axis `d`,
/// a row of five, or a row of exactly four with an empty cell just past one
/// of its two ends (an open four).
pub open spec fn threat_in_dir(
    g: Seq<Option<PlayerRole>>,
    row: int,
    col: int,
    d: int,
    role: PlayerRole,
) -> bool {
    let f = run_len(g, row, col, dir_row(d), dir_col(d), role, 4);
    let b = run_len(g, row, col, -dir_row(d), -dir_col(d), role, 4);
    f + b >= 4 || (f + b == 3 && (open_beyond(g, row, col, dir_row(d), dir_col(d), role, 4)
        || open_beyond(g, row, col, -dir_row(d), -dir_col(d), role, 4)))
}

/// Hypothetically marking (row, col) for `role` yields a five or an open
/// four along some axis.
pub open spec fn creates_threat(
    g: Seq<Option<PlayerRole>>,
    row: int,
    col: int,
    role: PlayerRole,
) -> bool {
    exists|d: int| 0 <= d < 4 && #[trigger] threat_in_dir(g, row, col, d, role)
}

/// Positional bias: highest at the board center, falling off linearly with
/// the Manhattan distance from it.
pub open spec fn center_score(row: int, col: int) -> int {
    (10 - ((if row >= 7 {
        row - 7
    } else {
        7 - row
    }) + (if col >= 7 {
        col - 7
    } else {
        7 - col
    }))) * 10
}

/// Adjacency bias of the neighbour one step along axis `d`: an own mark
/// adds 50, an opponent mark subtracts 30, an empty or out-of-grid cell
/// contributes nothing.
pub open spec fn adj_delta(
    g: Seq<Option<PlayerRole>>,
    row: int,
    col: int,
    d: int,
    role: PlayerRole,
) -> int {
    if !in_bounds(row + dir_row(d), col + dir_col(d)) {
        0
    } else {
        match cell_at(g, row + dir_row(d), col + dir_col(d)) {
            Some(p) => if p == role {
                50
            } else {
                -30
            },
            None => 0,
        }
    }
}

/// Sum of the adjacency biases of the first `upto` axes.
pub open spec fn adj_sum(
    g: Seq<Option<PlayerRole>>,
    row: int,
    col: int,
    role: PlayerRole,
    upto: nat,
) -> int
    decreases upto,
{
    if upto == 0 {
        0
    } else {
        adj_sum(g, row, col, role, (upto - 1) as nat) + adj_delta(g, row, col, upto - 1, role)
    }
}

/// One pattern-scan pass: walk up to `steps` cells from (row, col) by
/// (dr, dc), stopping at the grid edge. An own mark raises the count while
/// the walk has not crossed an opponent mark since the last empty cell; an
/// empty cell raises the empty tally and re-arms the count; an opponent
/// mark disarms it. Returns the accumulated (count, empty).
pub open spec fn pattern_scan(
    g: Seq<Option<PlayerRole>>,
    row: int,
    col: int,
    dr: int,
    dc: int,
    role: PlayerRole,
    steps: nat,
    count: int,
    empty: int,
    cons: bool,
) -> (int, int)
    decreases steps,
{
    if steps == 0 {
        (count, empty)
    } else if !in_bounds(row + dr, col + dc) {
        (count, empty)
    } else {
        match cell_at(g, row + dr, col + dc) {
            Some(p) => if p == role {
                pattern_scan(
                    g,
                    row + dr,
                    col + dc,
                    dr,
                    dc,
                    role,
                    (steps - 1) as nat,
                    if cons {
                        count + 1
                    } else {
                        count
                    },
                    empty,
                    cons,
                )
            } else {
                pattern_scan(g, row + dr, col + dc, dr, dc, role, (steps - 1) as nat, count, empty, false)
            },
            None => pattern_scan(
                g,
                row + dr,
                col + dc,
                dr,
                dc,
                role,
                (steps - 1) as nat,
                count,
                empty + 1,
                true,
            ),
        }
    }
}

/// Pattern bias along axis `d`: both half-axes are scanned in turn, the
/// second continuing the tallies of the first, and the combined count and
/// empty tallies are scored. A count of four or more scores 100000, a
/// count of three with an open cell 10000, a count of two with two open
/// cells 1000.
pub open spec fn dir_pattern_score(
    g: Seq<Option<PlayerRole>>,
    row: int,
    col: int,
    d: int,
    role: PlayerRole,
) -> int {
    let fwd = pattern_scan(g, row, col, dir_row(d), dir_col(d), role, 4, 0, 0, true);
    let all = pattern_scan(g, row, col, -dir_row(d), -dir_col(d), role, 4, fwd.0, fwd.1, true);
    if all.0 >= 4 {
        100000
    } else if all.0 == 3 && all.1 >= 1 {
        10000
    } else if all.0 == 2 && all.1 >= 2 {
        1000
    } else {
        0
    }
}

/// Sum of the pattern biases of the first `upto` axes.
pub open spec fn pattern_sum(
    g: Seq<Option<PlayerRole>>,
    row: int,
    col: int,
    role: PlayerRole,
    upto: nat,
) -> int
    decreases upto,
{
    if upto == 0 {
        0
    } else {
        pattern_sum(g, row, col, role, (upto - 1) as nat) + dir_pattern_score(g, row, col, upto - 1, role)
    }
}

/// The position score of playing (row, col) as `role`: positional bias
/// plus adjacency bias plus the pattern bias of all four axes.
pub open spec fn eval_spec(
    g: Seq<Option<PlayerRole>>,
    row: int,
    col: int,
    role: PlayerRole,
) -> int {
    center_score(row, col) + adj_sum(g, row, col, role, 4) + pattern_sum(g, row, col, role, 4)
}

/// The adjacency bias of each axis lies in [-30, 50], so the sum over
/// `upto` axes lies in [-30 * upto, 50 * upto].
pub proof fn lemma_adj_sum_bounds(
    g: Seq<Option<PlayerRole>>,
    row: int,
    col: int,
    role: PlayerRole,
    upto: nat,
)
    ensures
        -30 * upto <= adj_sum(g, row, col, role, upto) <= 50 * upto,
    decreases upto,
{
    if upto > 0 {
        lemma_adj_sum_bounds(g, row, col, role, (upto - 1) as nat);
    }
}

/// The pattern bias of each axis lies in [0, 100000], so the sum over
/// `upto` axes lies in [0, 100000 * upto].
pub proof fn lemma_pattern_sum_bounds(
    g: Seq<Option<PlayerRole>>,
    row: int,
    col: int,
    role: PlayerRole,
    upto: nat,
)
    ensures
        0 <= pattern_sum(g, row, col, role, upto) <= 100000 * upto,
    decreases upto,
{
    if upto > 0 {
        lemma_pattern_sum_bounds(g, row, col, role, (upto - 1) as nat);
    }
}

/// For a cell inside the grid the position score lies in [-160, 400300].
pub proof fn lemma_eval_bounds(g: Seq<Option<PlayerRole>>, row: int, col: int, role: PlayerRole)
    requires
        in_bounds(row, col),
    ensures
        -160 <= eval_spec(g, row, col, role) <= 400300,
{
    lemma_adj_sum_bounds(g, row, col, role, 4);
    lemma_pattern_sum_bounds(g, row, col, role, 4);
}

/// The look-ahead score of playing (row, col) as `role` with `depth`
/// levels of reply left: the position score, minus half of the best reply
/// score the opponent can reach on any empty cell with one level less.
/// At depth zero it is the position score alone.
pub open spec fn simulate_spec(
    g: Seq<Option<PlayerRole>>,
    row: int,
    col: int,
    role: PlayerRole,
    depth: nat,
) -> int
    decreases depth, 0int, 0int,
{
    if depth == 0 {
        eval_spec(g, row, col, role)
    } else {
        eval_spec(g, row, col, role) - best_response(g, role.other(), (depth - 1) as nat, 225) / 2
    }
}

/// The best look-ahead score `role` can reach on an empty cell among the
/// first `upto` cells of the grid, never below zero.
pub open spec fn best_response(
    g: Seq<Option<PlayerRole>>,
    role: PlayerRole,
    depth: nat,
    upto: nat,
) -> int
    decreases depth, 1int, upto,
{
    if upto == 0 {
        0
    } else {
        let prev = best_response(g, role, depth, (upto - 1) as nat);
        if g[upto - 1] is None {
            let s = simulate_spec(g, (upto - 1) as int / 15, (upto - 1) as int % 15, role, depth);
            if s > prev {
                s
            } else {
                prev
            }
        } else {
            prev
        }
    }
}

/// The look-ahead score of an in-grid cell lies in [-200310, 400300],
/// whatever the depth.
pub proof fn lemma_simulate_bounds(
    g: Seq<Option<PlayerRole>>,
    row: int,
    col: int,
    role: PlayerRole,
    depth: nat,
)
    requires
        in_bounds(row, col),
    ensures
        -200310 <= simulate_spec(g, row, col, role, depth) <= 400300,
    decreases depth, 0int, 0int,
{
    lemma_eval_bounds(g, row, col, role);
    if depth > 0 {
        lemma_best_response_bounds(g, role.other(), (depth - 1) as nat, 225);
    }
}

/// The best reply score lies in [0, 400300].
pub proof fn lemma_best_response_bounds(
    g: Seq<Option<PlayerRole>>,
    role: PlayerRole,
    depth: nat,
    upto: nat,
)
    requires
        upto <= 225,
    ensures
        0 <= best_response(g, role, depth, upto) <= 400300,
    decreases depth, 1int, upto,
{
    if upto > 0 {
        lemma_best_response_bounds(g, role, depth, (upto - 1) as nat);
        if g[upto - 1] is None {
            assert(0 <= (upto - 1) as int / 15 < 15 && 0 <= (upto - 1) as int % 15 < 15);
            lemma_simulate_bounds(g, (upto - 1) as int / 15, (upto - 1) as int % 15, role, depth);
        }
    }
}

/// Cell `i` is empty and occupying it wins at once for `role`.
pub open spec fn win_cell(g: Seq<Option<PlayerRole>>, role: PlayerRole, i: int) -> bool {
    g[i] is None && creates_five(g, i / 15, i % 15, role)
}

/// Cell `i` is empty and occupying it would give `role` a five or an open
/// four.
pub open spec fn threat_cell(g: Seq<Option<PlayerRole>>, role: PlayerRole, i: int) -> bool {
    g[i] is None && creates_threat(g, i / 15, i % 15, role)
}

/// The first cell at or after `i`, in row-major order, whose occupation
/// wins at once for `role`.
pub open spec fn first_win_from(g: Seq<Option<PlayerRole>>, role: PlayerRole, i: nat) -> Option<
    int,
>
    decreases 225 - i,
{
    if i >= 225 {
        None
    } else if win_cell(g, role, i as int) {
        Some(i as int)
    } else {
        first_win_from(g, role, i + 1)
    }
}

/// The first cell at or after `i`, in row-major order, whose occupation by
/// `role` would give it a five or an open four.
pub open spec fn first_threat_from(g: Seq<Option<PlayerRole>>, role: PlayerRole, i: nat) -> Option<
    int,
>
    decreases 225 - i,
{
    if i >= 225 {
        None
    } else if threat_cell(g, role, i as int) {
        Some(i as int)
    } else {
        first_threat_from(g, role, i + 1)
    }
}

/// Among the first `upto` cells, the empty cell with the highest
/// look-ahead score for `role` and that score; earlier cells win ties.
/// `None` iff none of those cells is empty.
pub open spec fn best_search(
    g: Seq<Option<PlayerRole>>,
    role: PlayerRole,
    depth: nat,
    upto: nat,
) -> Option<(int, int)>
    decreases upto,
{
    if upto == 0 {
        None
    } else {
        let prev = best_search(g, role, depth, (upto - 1) as nat);
        if g[upto - 1] is Some {
            prev
        } else {
            let s = simulate_spec(g, (upto - 1) as int / 15, (upto - 1) as int % 15, role, depth);
            match prev {
                None => Some(((upto - 1) as int, s)),
                Some(p) => if s > p.1 {
                    Some(((upto - 1) as int, s))
                } else {
                    prev
                },
            }
        }
    }
}

/// The recommended cell, as a row-major index: the first immediately
/// winning cell; otherwise the first cell denying the opponent a five or
/// an open four; otherwise the empty cell with the best look-ahead score,
/// earliest first on ties. `None` iff the grid is full.
pub open spec fn recommend_spec(g: Seq<Option<PlayerRole>>, role: PlayerRole, depth: nat) -> Option<
    int,
> {
    match first_win_from(g, role, 0) {
        Some(i) => Some(i),
        None => match first_threat_from(g, role.other(), 0) {
            Some(i) => Some(i),
            None => match best_search(g, role, depth, 225) {
                Some(p) => Some(p.0),
                None => None,
            },
        },
    }
}

/// If some cell at or after `i` is an immediate win for `role`, the scan
/// from `i` finds the first such cell.
pub proof fn lemma_first_win_from_found(
    g: Seq<Option<PlayerRole>>,
    role: PlayerRole,
    i: nat,
    j: int,
)
    requires
        i as int <= j < 225,
        win_cell(g, role, j),
    ensures
        ({
            match first_win_from(g, role, i) {
                Some(k) => i as int <= k <= j && win_cell(g, role, k) && forall|m: int|
                    i as int <= m < k ==> !#[trigger] win_cell(g, role, m),
                None => false,
            }
        }),
    decreases 225 - i,
{
    if !win_cell(g, role, i as int) {
        lemma_first_win_from_found(g, role, i + 1, j);
    }
}

/// If no cell at or after `i` is an immediate win for `role`, the scan
/// from `i` finds nothing.
pub proof fn lemma_first_win_from_none(g: Seq<Option<PlayerRole>>, role: PlayerRole, i: nat)
    requires
        forall|m: int| i as int <= m < 225 ==> !#[trigger] win_cell(g, role, m),
    ensures
        first_win_from(g, role, i) is None,
    decreases 225 - i,
{
    if i < 225 {
        lemma_first_win_from_none(g, role, i + 1);
    }
}

/// If some cell at or after `i` would give `role` a five or an open four,
/// the scan from `i` finds the first such cell.
pub proof fn lemma_first_threat_from_found(
    g: Seq<Option<PlayerRole>>,
    role: PlayerRole,
    i: nat,
    j: int,
)
    requires
        i as int <= j < 225,
        threat_cell(g, role, j),
    ensures
        ({
            match first_threat_from(g, role, i) {
                Some(k) => i as int <= k <= j && threat_cell(g, role, k) && forall|m: int|
                    i as int <= m < k ==> !#[trigger] threat_cell(g, role, m),
                None => false,
            }
        }),
    decreases 225 - i,
{
    if !threat_cell(g, role, i as int) {
        lemma_first_threat_from_found(g, role, i + 1, j);
    }
}

/// A search that found no cell saw no empty cell.
pub proof fn lemma_best_search_none(
    g: Seq<Option<PlayerRole>>,
    role: PlayerRole,
    depth: nat,
    upto: nat,
)
    requires
        upto <= 225,
        best_search(g, role, depth, upto) is None,
    ensures
        forall|j: int| 0 <= j < upto ==> g[j] is Some,
    decreases upto,
{
    if upto > 0 {
        lemma_best_search_none(g, role, depth, (upto - 1) as nat);
    }
}

/// One pattern-scan pass over the real grid, mirroring `pattern_scan`.
fn scan_pattern(
    board: &Board,
    row: usize,
    col: usize,
    dr: i32,
    dc: i32,
    role: PlayerRole,
    count0: i32,
    empty0: i32,
) -> (res: (i32, i32))
    requires
        board.wf(),
        row < 15,
        col < 15,
        -1 <= dr <= 1,
        -1 <= dc <= 1,
        0 <= count0 <= 4,
        0 <= empty0 <= 4,
    ensures
        ({
            let p = pattern_scan(
                board.grid(),
                row as int,
                col as int,
                dr as int,
                dc as int,
                role,
                4,
                count0 as int,
                empty0 as int,
                true,
            );
            res.0 == p.0 && res.1 == p.1
        }),
        count0 <= res.0 <= count0 + 4,
        empty0 <= res.1 <= empty0 + 4,
{
    let mut count: i32 = count0;
    let mut empty: i32 = empty0;
    let mut cons: bool = true;
    let mut r: i32 = row as i32;
    let mut c: i32 = col as i32;
    let mut steps: u32 = 4;
    loop
        invariant
            board.wf(),
            -1 <= dr <= 1,
            -1 <= dc <= 1,
            steps <= 4,
            in_bounds(r as int, c as int),
            count0 <= count <= count0 + 4 - steps,
            empty0 <= empty <= empty0 + 4 - steps,
            0 <= count0 <= 4,
            0 <= empty0 <= 4,
            pattern_scan(
                board.grid(),
                row as int,
                col as int,
                dr as int,
                dc as int,
                role,
                4,
                count0 as int,
                empty0 as int,
                true,
            ) == pattern_scan(
                board.grid(),
                r as int,
                c as int,
                dr as int,
                dc as int,
                role,
                steps as nat,
                count as int,
                empty as int,
                cons,
            ),
        decreases steps,
    {
        if steps == 0 {
            return (count, empty);
        }
        let nr = r + dr;
        let nc = c + dc;
        if nr < 0 || nr >= 15 || nc < 0 || nc >= 15 {
            return (count, empty);
        }
        match board.get(nr as usize, nc as usize) {
            Some(p) => {
                if p == role {
                    if cons {
                        count = count + 1;
                    }
                } else {
                    cons = false;
                }
            },
            None => {
                empty = empty + 1;
                cons = true;
            },
        }
        r = nr;
        c = nc;
        steps = steps - 1;
    }
}

/// The stateless heuristic searcher: a role to play for and a fixed
/// look-ahead depth.
pub struct AIPlayer {
    pub player: PlayerRole,
    depth: usize,
}

impl AIPlayer {
    /// The configured look-ahead depth.
    pub closed spec fn spec_depth(&self) -> nat {
        self.depth as nat
    }

    /// The role the engine plays for.
    pub closed spec fn spec_player(&self) -> PlayerRole {
        self.player
    }

    /// An engine for `player` with the default look-ahead depth of three.
    pub fn new(player: PlayerRole) -> (r: AIPlayer)
        ensures
            r.spec_player() == player,
            r.spec_depth() == 3,
    {
        AIPlayer { player, depth: 3 }
    }

    /// An engine for `player` with a chosen look-ahead depth.
    pub fn with_depth(player: PlayerRole, depth: usize) -> (r: AIPlayer)
        ensures
            r.spec_player() == player,
            r.spec_depth() == depth,
    {
        AIPlayer { player, depth }
    }

    /// The position score of playing (row, col) as `role`.
    fn evaluate_position(&self, board: &Board, row: usize, col: usize, role: PlayerRole) -> (s:
        i32)
        requires
            board.wf(),
            row < 15,
            col < 15,
        ensures
            s as int == eval_spec(board.grid(), row as int, col as int, role),
            -160 <= s <= 400300,
    {
        let row_d = if row >= 7 {
            row - 7
        } else {
            7 - row
        };
        let col_d = if col >= 7 {
            col - 7
        } else {
            7 - col
        };
        let mut score: i32 = (10 - (row_d + col_d) as i32) * 10;
        let mut d: usize = 0;
        while d < 4
            invariant
                board.wf(),
                row < 15,
                col < 15,
                d <= 4,
                score as int == center_score(row as int, col as int) + adj_sum(
                    board.grid(),
                    row as int,
                    col as int,
                    role,
                    d as nat,
                ),
                -40 - 30 * d <= score <= 100 + 50 * d,
            decreases 4 - d,
        {
            let (dr, dc) = direction(d);
            let nr = row as i32 + dr;
            let nc = col as i32 + dc;
            if nr >= 0 && nr < 15 && nc >= 0 && nc < 15 {
                match board.get(nr as usize, nc as usize) {
                    Some(p) => {
                        if p == role {
                            score = score + 50;
                        } else {
                            score = score - 30;
                        }
                    },
                    None => {},
                }
            }
            d = d + 1;
        }
        let mut d: usize = 0;
        while d < 4
            invariant
                board.wf(),
                row < 15,
                col < 15,
                d <= 4,
                score as int == center_score(row as int, col as int) + adj_sum(
                    board.grid(),
                    row as int,
                    col as int,
                    role,
                    4,
                ) + pattern_sum(board.grid(), row as int, col as int, role, d as nat),
                -160 <= score <= 300 + 100000 * d,
            decreases 4 - d,
        {
            let (dr, dc) = direction(d);
            let (c1, e1) = scan_pattern(board, row, col, dr, dc, role, 0, 0);
            let (c2, e2) = scan_pattern(board, row, col, -dr, -dc, role, c1, e1);
            if c2 >= 4 {
                score = score + 100000;
            } else if c2 == 3 && e2 >= 1 {
                score = score + 10000;
            } else if c2 == 2 && e2 >= 2 {
                score = score + 1000;
            }
            d = d + 1;
        }
        score
    }

    /// The look-ahead score of playing (row, col) as `role` with `depth`
    /// levels of reply left.
    fn simulate_move(&self, board: &Board, row: usize, col: usize, role: PlayerRole, depth: usize) -> (s:
        i32)
        requires
            board.wf(),
            row < 15,
            col < 15,
        ensures
            s as int == simulate_spec(board.grid(), row as int, col as int, role, depth as nat),
            -200310 <= s <= 400300,
        decreases depth,
    {
        let score = self.evaluate_position(board, row, col, role);
        if depth == 0 {
            return score;
        }
        let opponent = role.other();
        let mut best: i32 = 0;
        let mut i: usize = 0;
        while i < 225
            invariant
                board.wf(),
                i <= 225,
                depth >= 1,
                opponent == role.other(),
                best as int == best_response(board.grid(), opponent, (depth - 1) as nat, i as nat),
                0 <= best <= 400300,
            decreases 225 - i,
        {
            let r2 = i / 15;
            let c2 = i % 15;
            proof {
                assert(i as int == (i as int / 15) * 15 + (i as int) % 15);
                assert(r2 < 15 && c2 < 15);
                assert(cell_index(r2 as int, c2 as int) == i as int);
            }
            if board.get(r2, c2).is_none() {
                let s = self.simulate_move(board, r2, c2, opponent, depth - 1);
                if s > best {
                    best = s;
                }
            }
            i = i + 1;
        }
        score - best / 2
    }

    /// The recommended cell for `self.player`, by the strict priority
    /// order: first immediately winning cell, else first cell denying the
    /// opponent a five or an open four, else the empty cell with the best
    /// look-ahead score (earliest on ties), all in row-major order. Fails
    /// with `NoLegalMove` exactly when the board is full.
    pub fn make_move(&self, board: &Board) -> (r: Result<(usize, usize), GameError>)
        requires
            board.wf(),
        ensures
            match r {
                Ok(rc) => rc.0 < 15 && rc.1 < 15 && cell_at(
                    board.grid(),
                    rc.0 as int,
                    rc.1 as int,
                ) is None && Some(cell_index(rc.0 as int, rc.1 as int)) == recommend_spec(
                    board.grid(),
                    self.spec_player(),
                    self.spec_depth(),
                ),
                Err(e) => e == GameError::NoLegalMove && recommend_spec(
                    board.grid(),
                    self.spec_player(),
                    self.spec_depth(),
                ) is None && grid_full(board.grid()),
            },
    {
        let g = Ghost(board.grid());
        // Stage one: an immediate win of our own.
        let mut i: usize = 0;
        while i < 225
            invariant
                board.wf(),
                g@ == board.grid(),
                i <= 225,
                first_win_from(g@, self.player, 0) == first_win_from(g@, self.player, i as nat),
            decreases 225 - i,
        {
            let r2 = i / 15;
            let c2 = i % 15;
            proof {
                assert(i as int == (i as int / 15) * 15 + (i as int) % 15);
                assert(cell_index(r2 as int, c2 as int) == i as int);
            }
            if board.get(r2, c2).is_none() {
                if wins_if_placed(board, r2, c2, self.player) {
                    proof {
                        assert(win_cell(g@, self.player, i as int));
                    }
                    return Ok((r2, c2));
                }
            }
            proof {
                assert(!win_cell(g@, self.player, i as int));
            }
            i = i + 1;
        }
        let opponent = self.player.other();
        // Stage two: deny the opponent a five or an open four.
        let mut i: usize = 0;
        while i < 225
            invariant
                board.wf(),
                g@ == board.grid(),
                i <= 225,
                opponent == self.player.other(),
                first_win_from(g@, self.player, 0) is None,
                first_threat_from(g@, opponent, 0) == first_threat_from(g@, opponent, i as nat),
            decreases 225 - i,
        {
            let r2 = i / 15;
            let c2 = i % 15;
            proof {
                assert(i as int == (i as int / 15) * 15 + (i as int) % 15);
                assert(cell_index(r2 as int, c2 as int) == i as int);
            }
            if board.get(r2, c2).is_none() {
                if threat_if_placed(board, r2, c2, opponent) {
                    proof {
                        assert(threat_cell(g@, opponent, i as int));
                    }
                    return Ok((r2, c2));
                }
            }
            proof {
                assert(!threat_cell(g@, opponent, i as int));
            }
            i = i + 1;
        }
        // Stage three: best look-ahead score over all empty cells.
        let mut have: bool = false;
        let mut best_i: usize = 0;
        let mut best_s: i32 = 0;
        let mut i: usize = 0;
        while i < 225
            invariant
                board.wf(),
                g@ == board.grid(),
                i <= 225,
                best_i < 225,
                first_win_from(g@, self.player, 0) is None,
                first_threat_from(g@, self.player.other(), 0) is None,
                match best_search(g@, self.player, self.spec_depth(), i as nat) {
                    None => !have,
                    Some(p) => have && p.0 == best_i as int && p.1 == best_s as int && g@[best_i as int] is None,
                },
            decreases 225 - i,
        {
            let r2 = i / 15;
            let c2 = i % 15;
            proof {
                assert(i as int == (i as int / 15) * 15 + (i as int) % 15);
                assert(cell_index(r2 as int, c2 as int) == i as int);
            }
            if board.get(r2, c2).is_none() {
                let s = self.simulate_move(board, r2, c2, self.player, self.depth);
                if !have || s > best_s {
                    have = true;
                    best_i = i;
                    best_s = s;
                }
            }
            i = i + 1;
        }
        if have {
            let br = best_i / 15;
            let bc = best_i % 15;
            proof {
                assert(best_i as int == (best_i as int / 15) * 15 + (best_i as int) % 15);
                assert(cell_index(br as int, bc as int) == best_i as int);
            }
            Ok((br, bc))
        } else {
            proof {
                lemma_best_search_none(g@, self.player, self.spec_depth(), 225);
            }
            Err(GameError::NoLegalMove)
        }
    }

    /// A degraded fallback policy: a uniformly random cell of the grid,
    /// with no regard for the position.
    pub fn make_move_simple(&self, _board: &Board, _player: PlayerRole) -> (r: Result<
        (usize, usize),
        GameError,
    >)
        ensures
            match r {
                Ok(rc) => rc.0 < 15 && rc.1 < 15,
                Err(_) => false,
            },
    {
        let row = random_below(15);
        let col = random_below(15);
        Ok((row, col))
    }
}

/// A uniform draw below `n`.
///
/// Relies on `rand::random_range`: a value drawn from a nonempty half-open
/// range lies inside that range.
#[verifier::external_body]
fn random_below(n: usize) -> (r: usize)
    requires
        n > 0,
    ensures
        r < n,
{
    rand::random_range(0..n)
}

/// Whether hypothetically marking the cell (row, col) for `role` completes
/// a row of five.
fn wins_if_placed(board: &Board, row: usize, col: usize, role: PlayerRole) -> (b: bool)
    requires
        board.wf(),
        row < 15,
        col < 15,
    ensures
        b == creates_five(board.grid(), row as int, col as int, role),
{
    let mut d: usize = 0;
    while d < 4
        invariant
            board.wf(),
            row < 15,
            col < 15,
            d <= 4,
            forall|d2: int|
                0 <= d2 < d ==> !(#[trigger] five_in_dir(
                    board.grid(),
                    row as int,
                    col as int,
                    d2,
                    role,
                )),
        decreases 4 - d,
    {
        let (dr, dc) = direction(d);
        let (f, _) = board.scan_run(row, col, dr, dc, role);
        let (bk, _) = board.scan_run(row, col, -dr, -dc, role);
        if f + bk >= 4 {
            proof {
                assert(five_in_dir(board.grid(), row as int, col as int, d as int, role));
            }
            return true;
        }
        d = d + 1;
    }
    false
}

/// Whether hypothetically marking the cell (row, col) for `role` yields a
/// five or an open four.
fn threat_if_placed(board: &Board, row: usize, col: usize, role: PlayerRole) -> (b: bool)
    requires
        board.wf(),
        row < 15,
        col < 15,
    ensures
        b == creates_threat(board.grid(), row as int, col as int, role),
{
    let mut d: usize = 0;
    while d < 4
        invariant
            board.wf(),
            row < 15,
            col < 15,
            d <= 4,
            forall|d2: int|
                0 <= d2 < d ==> !(#[trigger] threat_in_dir(
                    board.grid(),
                    row as int,
                    col as int,
                    d2,
                    role,
                )),
        decreases 4 - d,
    {
        let (dr, dc) = direction(d);
        let (f, fo) = board.scan_run(row, col, dr, dc, role);
        let (bk, bo) = board.scan_run(row, col, -dr, -dc, role);
        if f + bk >= 4 || (f + bk == 3 && (fo || bo)) {
            proof {
                assert(threat_in_dir(board.grid(), row as int, col as int, d as int, role));
            }
            return true;
        }
        d = d + 1;
    }
    false
}

/// The engine never misses its own immediate win: if occupying some empty
/// cell would complete a row of five for `role` - four in a row with an
/// open fifth cell, in any orientation - then the recommendation is such a
/// cell, namely the first one in row-major order.
pub proof fn lemma_recommend_immediate_win(
    g: Seq<Option<PlayerRole>>,
    role: PlayerRole,
    depth: nat,
    row: int,
    col: int,
)
    requires
        grid_wf(g),
        in_bounds(row, col),
        cell_at(g, row, col) is None,
        creates_five(g, row, col, role),
    ensures
        ({
            match recommend_spec(g, role, depth) {
                Some(i) => 0 <= i < 225 && g[i] is None && creates_five(g, i / 15, i % 15, role)
                    && forall|m: int| 0 <= m < i ==> !#[trigger] win_cell(g, role, m),
                None => false,
            }
        }),
{
    let j = cell_index(row, col);
    assert(j == row * 15 + col);
    vstd::arithmetic::div_mod::lemma_fundamental_div_mod_converse_div(j, 15, row, col);
    vstd::arithmetic::div_mod::lemma_fundamental_div_mod_converse_mod(j, 15, row, col);
    assert(win_cell(g, role, j));
    lemma_first_win_from_found(g, role, 0, j);
}

/// With no immediate win of its own anywhere, the engine denies an
/// opponent that could complete a row of five: the recommendation is a
/// cell whose occupation by the opponent would have yielded a five or an
/// open four.
pub proof fn lemma_recommend_blocks(
    g: Seq<Option<PlayerRole>>,
    role: PlayerRole,
    depth: nat,
    row: int,
    col: int,
)
    requires
        grid_wf(g),
        in_bounds(row, col),
        cell_at(g, row, col) is None,
        creates_five(g, row, col, role.other()),
        forall|m: int| 0 <= m < 225 ==> !#[trigger] win_cell(g, role, m),
    ensures
        ({
            match recommend_spec(g, role, depth) {
                Some(i) => 0 <= i < 225 && g[i] is None && creates_threat(
                    g,
                    i / 15,
                    i % 15,
                    role.other(),
                ),
                None => false,
            }
        }),
{
    lemma_first_win_from_none(g, role, 0);
    let j = cell_index(row, col);
    vstd::arithmetic::div_mod::lemma_fundamental_div_mod_converse_div(j, 15, row, col);
    vstd::arithmetic::div_mod::lemma_fundamental_div_mod_converse_mod(j, 15, row, col);
    let d = choose|d: int| 0 <= d < 4 && #[trigger] five_in_dir(g, row, col, d, role.other());
    assert(threat_in_dir(g, row, col, d, role.other()));
    assert(creates_threat(g, row, col, role.other()));
    assert(threat_cell(g, role.other(), j));
    lemma_first_threat_from_found(g, role.other(), 0, j);
}

} // verus!
