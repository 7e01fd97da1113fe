use vstd::prelude::*;
use crate::board::{clamp_eval, material_spec, occurrences, Board};
use crate::chess::{captures_spec, check_of, hash_of, legal_of, Position};
use crate::history::{
    bonus_spec, bump_capture_spec, bump_main_spec, penalise_capture, penalise_main,
    MAX_HISTORY_DEPTH,
};
use crate::info::{moves_wf, pv_slot, SearchInfo, PV_SIZE};
use crate::moves::ChessMove;
use crate::ordering::{sort_moves, OrderingContext};
use crate::params::{Parameters, SearchParams, MAX_DEPTH, MAX_MARGIN};
use crate::score::{mated_in, mated_in_spec, DRAW, INFINITY, MATE, MATE_BOUND, MAX_PLY};
use crate::see::see;
use crate::tt::{seen_at, stored_at, valid_cutoff_spec, Bound, Entry, TranspositionTable};

verus! {

/// Nodes between two looks at the clock.
pub const TIME_CHECK_NODES: u64 = 2048;

/// Depth from which an iteration starts with a narrow window.
pub const ASPIRATION_DEPTH: i32 = 5;

/// Half width of the first aspiration window.
pub const ASPIRATION_WINDOW: i32 = 50;

/// Narrow windows tried before an iteration falls back to the full window.
pub const ASPIRATION_TRIES: u32 = 16;

/// Everything a search works on.
pub struct SearchRefs {
    pub board: Board,
    pub params: Parameters,
    pub search_params: SearchParams,
    pub search_info: SearchInfo,
    pub tt: TranspositionTable,
    pub tt_enabled: bool,
}

impl SearchRefs {
    pub open spec fn wf(&self) -> bool {
        &&& self.board.wf()
        &&& self.params.wf()
        &&& self.params.iir_depth >= 1
        &&& self.search_info.wf()
        &&& self.tt.wf()
        &&& self.search_info.ply == self.board.ply
    }

    /// A search leaves the position, its stacks and the ply as it found them.
    pub open spec fn restored(&self, before: &SearchRefs) -> bool {
        &&& self.board.same_position(&before.board)
        &&& self.search_info.ply == before.search_info.ply
        &&& self.params == before.params
        &&& self.search_params == before.search_params
        &&& self.tt_enabled == before.tt_enabled
        &&& (before.search_info.terminated ==> self.search_info.terminated)
    }
}

/// The window of a node below the root once mate-distance pruning has narrowed it.
pub open spec fn narrowed_alpha(alpha: int, ply: int) -> int {
    if alpha < -MATE + ply {
        -MATE + ply
    } else {
        alpha
    }
}

pub open spec fn narrowed_beta(beta: int, ply: int) -> int {
    if beta > MATE - ply - 1 {
        MATE - ply - 1
    } else {
        beta
    }
}

/// A zero-window node below the root, not repeated and not cut by mate
/// distance, that reaches the table and finds there an entry for its
/// position whose score settles its window at its depth.
pub open spec fn table_cutoff(refs: &SearchRefs, depth: int, alpha: int, beta: int) -> bool {
    let ply = refs.board.ply as int;
    let pos = refs.board.pos;
    let a = narrowed_alpha(alpha, ply);
    let b = narrowed_beta(beta, ply);
    let d = if depth < 0 {
        0
    } else {
        depth
    };
    &&& ply > 0
    &&& ply < MAX_PLY - 1
    &&& beta - alpha == 1
    &&& refs.tt_enabled
    &&& occurrences(refs.board.history@, hash_of(pos)) < 2
    &&& a < b
    &&& (depth > 0 || check_of(pos))
    &&& stored_at(refs.tt.entries@, hash_of(pos)) is Some
    &&& -INFINITY < seen_at(stored_at(refs.tt.entries@, hash_of(pos))->0, ply).score < INFINITY
    &&& valid_cutoff_spec(seen_at(stored_at(refs.tt.entries@, hash_of(pos))->0, ply), a, b, d)
}

/// How a node's result bounds its true value, given its window.
pub open spec fn bound_spec(r: int, alpha: int, beta: int) -> Bound {
    if r <= alpha {
        Bound::Alpha
    } else if r >= beta {
        Bound::Beta
    } else {
        Bound::Exact
    }
}

/// After a root search of `pos` to `depth` in (alpha, beta) with result `r`:
/// the table holds, for `pos`, the result, a move, the bound the result
/// gives, and the depth searched (one more in check).
pub open spec fn root_entry_written(
    entries: Seq<Option<Entry>>,
    pos: Position,
    depth: int,
    alpha: int,
    beta: int,
    r: int,
) -> bool {
    &&& stored_at(entries, hash_of(pos)) is Some
    &&& stored_at(entries, hash_of(pos))->0.score == r
    &&& stored_at(entries, hash_of(pos))->0.bound == bound_spec(r, alpha, beta)
    &&& stored_at(entries, hash_of(pos))->0.depth == depth + (if check_of(pos) {
        1int
    } else {
        0int
    })
    &&& stored_at(entries, hash_of(pos))->0.m is Some
}

/// What one completed iteration found.
pub struct IterationReport {
    pub depth: i32,
    pub sel_depth: usize,
    pub nodes: u64,
    pub score: i32,
    pub pv: Vec<ChessMove>,
    pub time_ms: u128,
}

/// The result of a root search: the move to play, and one report per completed iteration.
pub struct SearchOutcome {
    pub best_move: Option<ChessMove>,
    pub reports: Vec<IterationReport>,
}

/// A score as the UCI protocol writes it.
#[derive(PartialEq, Eq, Structural, Clone, Copy, Debug)]
pub enum UciScore {
    /// Centipawns.
    Cp(i32),
    /// Moves to mate, negative when the side to move is mated.
    Mate(i32),
}

/// Full moves to the mate a mate score announces: half the plies, rounded up.
pub open spec fn mate_moves(score: int) -> int {
    let magnitude = if score < 0 {
        -score
    } else {
        score
    };
    let plies = if magnitude > MATE {
        0
    } else {
        MATE - magnitude
    };
    (plies + 1) / 2
}

/// How a score is written: mate in full moves for a mate score, centipawns otherwise.
pub fn uci_score(score: i32) -> (r: UciScore)
    requires
        -INFINITY < score < INFINITY,
    ensures
        score >= MATE_BOUND ==> r == UciScore::Mate(mate_moves(score as int) as i32),
        score <= -MATE_BOUND ==> r == UciScore::Mate(-mate_moves(score as int) as i32),
        -MATE_BOUND < score < MATE_BOUND ==> r == UciScore::Cp(score),
{
    let magnitude = if score < 0 {
        -score
    } else {
        score
    };
    let plies = if magnitude > MATE {
        0
    } else {
        MATE - magnitude
    };
    if score >= MATE_BOUND {
        UciScore::Mate((plies + 1) / 2)
    } else if score <= -MATE_BOUND {
        UciScore::Mate(-((plies + 1) / 2))
    } else {
        UciScore::Cp(score)
    }
}

/// A tunable margin times a depth.
fn scaled(margin: i32, depth: i32) -> (r: i32)
    requires
        0 <= margin <= MAX_MARGIN,
        0 <= depth <= MAX_DEPTH + 1,
    ensures
        r == margin * depth,
        0 <= r <= MAX_MARGIN * (MAX_DEPTH + 1),
{
    assert(0 <= margin * depth <= MAX_MARGIN * (MAX_DEPTH + 1)) by (nonlinear_arith)
        requires
            0 <= margin <= MAX_MARGIN,
            0 <= depth <= MAX_DEPTH + 1,
    ;
    margin * depth
}

/// Whether a search that has visited `nodes` nodes and run `elapsed`
/// milliseconds must stop: the clock is looked at every `TIME_CHECK_NODES`
/// nodes, and the search stops once it has run longer than `limit`.
pub fn out_of_time(nodes: u64, elapsed: u128, limit: u128) -> (r: bool)
    ensures
        r == (nodes % TIME_CHECK_NODES == 0 && elapsed > limit),
{
    nodes % TIME_CHECK_NODES == 0 && elapsed > limit
}

/// The searcher's functions; the engine thread around them lives with the program.
pub struct Search;

impl Search {
    /// Empties row `ply` of the principal variation table.
    fn clear_pv_row(info: &mut SearchInfo, ply: usize)
        requires
            old(info).wf(),
            ply < MAX_PLY,
        ensures
            final(info).wf(),
            final(info).ply == old(info).ply,
            final(info).nodes == old(info).nodes,
            final(info).pv_length@[ply as int] == ply,
            final(info).terminated == old(info).terminated,
            final(info).killers@ == old(info).killers@,
            final(info).history == old(info).history,
    {
        info.pv_length.set(ply, ply);
        let mut j: usize = 0;
        while j < MAX_PLY
            invariant
                info.wf(),
                info.ply == old(info).ply,
                info.nodes == old(info).nodes,
                info.pv_length@[ply as int] == ply,
                info.terminated == old(info).terminated,
                info.killers@ == old(info).killers@,
                info.history == old(info).history,
                ply < MAX_PLY,
            decreases MAX_PLY - j,
        {
            info.pv.set(ply * MAX_PLY + j, None);
            j = j + 1;
        }
    }

    /// The line from `ply`: `best_move`, then the line found from `ply + 1`.
    pub fn update_pv(refs: &mut SearchRefs, best_move: Option<ChessMove>, ply: usize)
        requires
            old(refs).wf(),
            ply + 1 < MAX_PLY,
            best_move matches Some(m) ==> m.wf(),
        ensures
            final(refs).wf(),
            final(refs).restored(old(refs)),
            final(refs).search_info.nodes == old(refs).search_info.nodes,
            final(refs).search_info.terminated == old(refs).search_info.terminated,
            final(refs).search_info.pv@[ply * MAX_PLY + ply] == best_move,
            final(refs).search_info.pv_length@ == old(refs).search_info.pv_length@.update(
                ply as int,
                old(refs).search_info.pv_length@[ply + 1],
            ),
            forall|j: int|
                ply < j < old(refs).search_info.pv_length@[ply + 1] ==> final(refs).search_info.pv@[#[trigger] pv_slot(ply as int, j)]
                    == old(refs).search_info.pv@[pv_slot(ply + 1, j)],
            forall|k: int|
                0 <= k < PV_SIZE && k != ply * MAX_PLY + ply && !(ply * MAX_PLY + ply < k < ply
                    * MAX_PLY + old(refs).search_info.pv_length@[ply + 1]) ==> final(refs).search_info.pv@[k] == old(refs).search_info.pv@[k],
            final(refs).search_info.killers@ == old(refs).search_info.killers@,
            final(refs).search_info.history == old(refs).search_info.history,
    {
        refs.search_info.pv.set(ply * MAX_PLY + ply, best_move);
        let end = refs.search_info.pv_length[ply + 1];
        let mut next: usize = ply + 1;
        while next < end
            invariant
                refs.wf(),
                refs.restored(old(refs)),
                refs.search_info.nodes == old(refs).search_info.nodes,
                refs.search_info.terminated == old(refs).search_info.terminated,
                refs.search_info.pv@[ply * MAX_PLY + ply] == best_move,
                refs.search_info.pv_length@ == old(refs).search_info.pv_length@,
                refs.search_info.killers@ == old(refs).search_info.killers@,
                refs.search_info.history == old(refs).search_info.history,
                end == old(refs).search_info.pv_length@[ply + 1],
                end <= MAX_PLY,
                ply + 1 < MAX_PLY,
                ply < next,
                next <= end || next == ply + 1,
                forall|j: int|
                    ply < j < next ==> refs.search_info.pv@[#[trigger] pv_slot(ply as int, j)]
                        == old(refs).search_info.pv@[pv_slot(ply + 1, j)],
                forall|k: int|
                    0 <= k < PV_SIZE && k != ply * MAX_PLY + ply && !(ply * MAX_PLY + ply < k < ply
                        * MAX_PLY + next) ==> refs.search_info.pv@[k] == old(refs).search_info.pv@[k],
            decreases end - next,
        {
            assert((ply + 1) * MAX_PLY + next < PV_SIZE) by (nonlinear_arith)
                requires
                    ply + 1 < MAX_PLY,
                    next < MAX_PLY,
                    MAX_PLY == 128,
                    PV_SIZE == 16384,
            ;
            assert(ply * MAX_PLY + next < PV_SIZE) by (nonlinear_arith)
                requires
                    ply + 1 < MAX_PLY,
                    next < MAX_PLY,
                    MAX_PLY == 128,
                    PV_SIZE == 16384,
            ;
            assert(ply * MAX_PLY + next != ply * MAX_PLY + ply);
            let m = refs.search_info.pv[(ply + 1) * MAX_PLY + next];
            refs.search_info.pv.set(ply * MAX_PLY + next, m);
            next = next + 1;
        }
        refs.search_info.pv_length.set(ply, end);
    }

    /// After a cutoff by `best_move`: a capture feeds the capture history, a
    /// quiet move becomes the killer of the ply and feeds the quiet history.
    pub fn update_ordering_heuristics(
        refs: &mut SearchRefs,
        depth: i32,
        best_move: ChessMove,
        captures: &Vec<ChessMove>,
        quiets: &Vec<ChessMove>,
    )
        requires
            old(refs).wf(),
            0 <= depth <= MAX_HISTORY_DEPTH,
            best_move.wf(),
            forall|i: int| 0 <= i < captures@.len() ==> (#[trigger] captures@[i]).wf(),
            forall|i: int| 0 <= i < quiets@.len() ==> (#[trigger] quiets@[i]).wf(),
        ensures
            final(refs).wf(),
            final(refs).restored(old(refs)),
            final(refs).search_info.nodes == old(refs).search_info.nodes,
            final(refs).search_info.terminated == old(refs).search_info.terminated,
            best_move.is_capture_spec() ==> final(refs).search_info.history.capture@
                == penalise_capture(
                bump_capture_spec(
                    old(refs).search_info.history.capture@,
                    best_move,
                    bonus_spec(depth as int),
                ),
                captures@,
                bonus_spec(depth as int),
            ) && final(refs).search_info.history.main@ == old(refs).search_info.history.main@
                && final(refs).search_info.killers@ == old(refs).search_info.killers@,
            !best_move.is_capture_spec() ==> final(refs).search_info.history.main@ == penalise_main(
                bump_main_spec(
                    old(refs).search_info.history.main@,
                    old(refs).board.pos.pieces.white_to_move,
                    best_move,
                    bonus_spec(depth as int),
                ),
                old(refs).board.pos.pieces.white_to_move,
                quiets@,
                bonus_spec(depth as int),
            ) && final(refs).search_info.history.capture@ == old(refs).search_info.history.capture@
                && final(refs).search_info.killers@ == old(refs).search_info.killers@.update(
                old(refs).search_info.ply as int,
                Some(best_move),
            ),
    {
        if best_move.is_capture() {
            refs.search_info.history.update_capture(&best_move, captures, depth);
        } else {
            let ply = refs.search_info.ply;
            refs.search_info.killers.set(ply, Some(best_move));
            let white = refs.board.turn();
            refs.search_info.history.update_main(white, &best_move, quiets, depth);
        }
    }

    /// Counts a node; every `TIME_CHECK_NODES` nodes, marks the search
    /// terminated once its time is up. Returns whether it is.
    fn count_node_and_check_time(refs: &mut SearchRefs) -> (r: bool)
        requires
            old(refs).wf(),
        ensures
            final(refs).wf(),
            final(refs).restored(old(refs)),
            r == final(refs).search_info.terminated,
    {
        if refs.search_info.nodes < u64::MAX {
            refs.search_info.nodes = refs.search_info.nodes + 1;
        }
        if refs.search_info.nodes % TIME_CHECK_NODES == 0 && out_of_time(
            refs.search_info.nodes,
            refs.search_info.elapsed(),
            refs.search_params.search_time,
        ) {
            refs.search_info.terminated = true;
        }
        refs.search_info.terminated
    }

    /// Searches captures only, until the position is quiet, in the window (alpha, beta).
    pub fn qsearch(refs: &mut SearchRefs, alpha: i32, beta: i32) -> (r: i32)
        requires
            old(refs).wf(),
            -INFINITY <= alpha < beta <= INFINITY,
        ensures
            final(refs).wf(),
            final(refs).restored(old(refs)),
            -INFINITY < r < INFINITY,
            !final(refs).search_info.terminated && old(refs).board.ply < MAX_PLY - 1 && clamp_eval(
                material_spec(old(refs).board.pos.pieces),
            ) >= beta ==> r == beta,
            !final(refs).search_info.terminated && old(refs).board.ply < MAX_PLY - 1 && clamp_eval(
                material_spec(old(refs).board.pos.pieces),
            ) < beta && !old(refs).tt_enabled && captures_spec(old(refs).board.pos).len() == 0
                ==> r == (if clamp_eval(material_spec(old(refs).board.pos.pieces)) > alpha {
                clamp_eval(material_spec(old(refs).board.pos.pieces))
            } else {
                alpha as int
            }),
        decreases MAX_PLY - old(refs).board.ply,
    {
        let mut alpha = alpha;
        if Search::count_node_and_check_time(refs) {
            return 0;
        }
        let ply = refs.search_info.ply;
        let stand_pat = refs.board.evaluate();
        if ply >= MAX_PLY - 1 {
            return stand_pat;
        }
        if stand_pat >= beta {
            return beta;
        }
        if stand_pat > alpha {
            alpha = stand_pat;
        }
        if refs.tt_enabled {
            let hash = refs.board.get_hash();
            match refs.tt.read(hash, ply) {
                Some(hit) => {
                    if -INFINITY < hit.score && hit.score < INFINITY && hit.valid_cutoff(
                        alpha,
                        beta,
                        0,
                    ) {
                        return hit.score;
                    }
                },
                None => {},
            }
        }
        let mut moves = refs.board.capture_moves();
        let pieces = refs.board.state();
        {
            let ctx = OrderingContext {
                pieces: &pieces,
                history: &refs.search_info.history,
                killer: None,
                pv_move: None,
                tt_move: None,
            };
            sort_moves(&mut moves, &ctx);
        }
        let ghost start = *refs;
        let mut best_score: i32 = -INFINITY;
        let mut tried = false;
        let n = moves.len();
        if n == 0 {
            return alpha;
        }
        let mut i: usize = 0;
        while i < n
            invariant
                refs.wf(),
                refs.restored(&start),
                start.restored(old(refs)),
                refs.board.ply == ply,
                ply + 1 < MAX_PLY,
                n == moves@.len(),
                forall|k: int| 0 <= k < moves@.len() ==> (#[trigger] moves@[k]).wf(),
                -INFINITY < alpha < INFINITY,
                beta <= INFINITY,
                alpha >= beta ==> tried,
                tried ==> -INFINITY < best_score < INFINITY,
                !tried ==> best_score == -INFINITY,
            decreases n - i,
        {
            if alpha >= beta {
                break;
            }
            let m = moves[i];
            let good = match see(&pieces, &m, 0) {
                Some(b) => b,
                None => true,
            };
            if good {
                refs.board.make_move(&m, false);
                refs.search_info.ply = refs.search_info.ply + 1;
                let score = -Search::qsearch(refs, -beta, -alpha);
                refs.board.undo_move();
                refs.search_info.ply = refs.search_info.ply - 1;
                proof {
                    assert(refs.board.state_stack@ =~= start.board.state_stack@);
                    assert(refs.board.move_stack@ =~= start.board.move_stack@);
                    assert(refs.board.history@ =~= start.board.history@);
                }
                tried = true;
                if score > best_score {
                    best_score = score;
                    if score > alpha {
                        alpha = score;
                    }
                }
            }
            i = i + 1;
        }
        if tried {
            best_score
        } else {
            alpha
        }
    }

    /// Reverse futility pruning, razoring and null move pruning, in a node
    /// that is neither the root, a principal variation node nor in check.
    /// `Some` is the score the node returns at once.
    fn prune_before_moves(refs: &mut SearchRefs, depth: i32, alpha: i32, beta: i32, eval: i32) -> (r:
        Option<i32>)
        requires
            old(refs).wf(),
            old(refs).board.ply > 0,
            old(refs).board.ply + 1 < MAX_PLY,
            -INFINITY <= alpha < beta <= INFINITY,
            0 <= depth <= MAX_DEPTH + 1,
            -MATE_BOUND < eval < MATE_BOUND,
        ensures
            final(refs).wf(),
            final(refs).restored(old(refs)),
            r matches Some(s) ==> -INFINITY < s < INFINITY,
        decreases MAX_PLY - old(refs).board.ply, 1int,
    {
        let p = refs.params;
        if depth < p.rfp_depth && eval - scaled(p.rfp_margin, depth) > beta {
            return Some(eval);
        }
        if depth <= p.razoring_depth && eval + scaled(p.razoring_margin, depth)
            + p.razoring_fixed_margin <= alpha {
            let score = Search::qsearch(refs, alpha, beta);
            if score <= alpha {
                return Some(score);
            }
        }
        if !refs.board.is_last_move_null() && depth >= 4 && eval > beta {
            let gain = (eval - beta) / 200;
            let r = 3 + depth / 3 + (if gain < 4 {
                gain
            } else {
                4
            });
            let ghost before = *refs;
            refs.board.make_null_move();
            refs.search_info.ply = refs.search_info.ply + 1;
            let score = -Search::alpha_beta(refs, depth - r, -beta, -beta + 1);
            refs.board.undo_null_move();
            refs.search_info.ply = refs.search_info.ply - 1;
            proof {
                assert(refs.board.state_stack@ =~= before.board.state_stack@);
                assert(refs.board.move_stack@ =~= before.board.move_stack@);
            }
            if score >= beta {
                return Some(beta);
            }
        }
        None
    }

    /// Searches one move from the current node, with a zero window and a
    /// reduction for late quiet moves, and a full window where that is needed.
    fn search_move(
        refs: &mut SearchRefs,
        m: &ChessMove,
        index: usize,
        depth: i32,
        alpha: i32,
        beta: i32,
        reducible: bool,
    ) -> (r: i32)
        requires
            old(refs).wf(),
            m.wf(),
            old(refs).board.ply + 1 < MAX_PLY,
            -INFINITY <= alpha < beta <= INFINITY,
            0 <= depth <= MAX_DEPTH + 1,
        ensures
            final(refs).wf(),
            final(refs).restored(old(refs)),
            -INFINITY < r < INFINITY,
        decreases MAX_PLY - old(refs).board.ply, 0int,
    {
        let ghost before = *refs;
        refs.board.make_move(m, false);
        refs.search_info.ply = refs.search_info.ply + 1;
        let mut score: i32;
        if index == 0 {
            score = -Search::alpha_beta(refs, depth - 1, -beta, -alpha);
        } else {
            if reducible {
                score = -Search::alpha_beta(refs, depth - 2, -alpha - 1, -alpha);
            } else {
                score = alpha + 1;
            }
            if score > alpha {
                score = -Search::alpha_beta(refs, depth - 1, -alpha - 1, -alpha);
                if score > alpha && score < beta {
                    score = -Search::alpha_beta(refs, depth - 1, -beta, -alpha);
                }
            }
        }
        refs.board.undo_move();
        refs.search_info.ply = refs.search_info.ply - 1;
        proof {
            assert(refs.board.state_stack@ =~= before.board.state_stack@);
            assert(refs.board.move_stack@ =~= before.board.move_stack@);
            assert(refs.board.history@ =~= before.board.history@);
        }
        score
    }

    /// Negamax alpha-beta search of the current position to `depth` in the
    /// window (alpha, beta), with the table, pruning, reductions and extensions.
    #[verifier::rlimit(50)]
    pub fn alpha_beta(refs: &mut SearchRefs, depth: i32, alpha: i32, beta: i32) -> (r: i32)
        requires
            old(refs).wf(),
            -INFINITY <= alpha < beta <= INFINITY,
            -MAX_DEPTH <= depth <= MAX_DEPTH,
        ensures
            final(refs).wf(),
            final(refs).restored(old(refs)),
            -INFINITY < r < INFINITY,
            !final(refs).search_info.terminated && old(refs).board.ply > 0 && occurrences(
                old(refs).board.history@,
                hash_of(old(refs).board.pos),
            ) >= 2 ==> r == DRAW && final(refs).tt.entries@ == old(refs).tt.entries@
                && final(refs).search_info.nodes == old(refs).search_info.nodes
                && final(refs).search_info.killers@ == old(refs).search_info.killers@
                && final(refs).search_info.history == old(refs).search_info.history,
            !final(refs).search_info.terminated && old(refs).board.ply > 0 && occurrences(
                old(refs).board.history@,
                hash_of(old(refs).board.pos),
            ) < 2 && narrowed_alpha(alpha as int, old(refs).board.ply as int) >= narrowed_beta(
                beta as int,
                old(refs).board.ply as int,
            ) ==> r == narrowed_alpha(alpha as int, old(refs).board.ply as int)
                && final(refs).tt.entries@ == old(refs).tt.entries@,
            !final(refs).search_info.terminated && old(refs).board.ply == 0 && depth >= 1 && (beta
                - alpha > 1 || !old(refs).tt_enabled) && legal_of(old(refs).board.pos).len() == 0
                ==> r == (if check_of(old(refs).board.pos) {
                mated_in_spec(0)
            } else {
                DRAW as int
            }) && final(refs).tt.entries@ == old(refs).tt.entries@,
            !final(refs).search_info.terminated && old(refs).board.ply == 0 && depth >= 1 && beta
                - alpha > 1 && old(refs).tt_enabled && legal_of(old(refs).board.pos).len() > 0
                ==> root_entry_written(
                final(refs).tt.entries@,
                old(refs).board.pos,
                depth as int,
                alpha as int,
                beta as int,
                r as int,
            ),
            !final(refs).search_info.terminated && table_cutoff(
                old(refs),
                depth as int,
                alpha as int,
                beta as int,
            ) ==> r == seen_at(
                stored_at(old(refs).tt.entries@, hash_of(old(refs).board.pos))->0,
                old(refs).board.ply as int,
            ).score,
        decreases MAX_PLY - old(refs).board.ply, 2int,
    {
        let mut alpha = alpha;
        let mut beta = beta;
        let mut depth = depth;
        let ply = refs.search_info.ply;
        Search::clear_pv_row(&mut refs.search_info, ply);
        if refs.search_info.nodes % TIME_CHECK_NODES == 0 && out_of_time(
            refs.search_info.nodes,
            refs.search_info.elapsed(),
            refs.search_params.search_time,
        ) {
            refs.search_info.terminated = true;
            return 0;
        }
        let is_root = ply == 0;
        let pv_node = beta - alpha > 1;
        let original_alpha = alpha;
        let in_check = refs.board.in_check();
        if !is_root {
            if refs.board.three_fold() {
                return DRAW;
            }
            let lower = -MATE + ply as i32;
            let upper = MATE - ply as i32 - 1;
            if alpha < lower {
                alpha = lower;
            }
            if beta > upper {
                beta = upper;
            }
            if alpha >= beta {
                return alpha;
            }
        }
        if ply >= MAX_PLY - 1 {
            return refs.board.evaluate();
        }
        if depth <= 0 && !in_check {
            return Search::qsearch(refs, alpha, beta);
        }
        if depth < 0 {
            depth = 0;
        }
        let hash = refs.board.get_hash();
        let mut tt_move: Option<ChessMove> = None;
        if refs.tt_enabled {
            match refs.tt.read(hash, ply) {
                Some(hit) => {
                    if !pv_node && -INFINITY < hit.score && hit.score < INFINITY
                        && hit.valid_cutoff(alpha, beta, depth) {
                        return hit.score;
                    }
                    tt_move = hit.m;
                },
                None => {},
            }
        }
        if !is_root && tt_move.is_none() && depth >= refs.params.iir_depth {
            depth = depth - 1;
        }
        if in_check {
            depth = depth + 1;
        }
        if refs.search_info.nodes < u64::MAX {
            refs.search_info.nodes = refs.search_info.nodes + 1;
        }
        if refs.search_info.sel_depth < ply {
            refs.search_info.sel_depth = ply;
        }
        refs.search_info.pv_length.set(ply, ply);
        let eval = refs.board.evaluate();
        refs.board.set_eval(ply, eval);
        if !in_check && !pv_node && !is_root {
            match Search::prune_before_moves(refs, depth, alpha, beta, eval) {
                Some(s) => {
                    return s;
                },
                None => {},
            }
        }
        let mut moves = refs.board.legal_moves();
        let pieces = refs.board.state();
        let killer = refs.search_info.killers[ply];
        {
            let ctx = OrderingContext {
                pieces: &pieces,
                history: &refs.search_info.history,
                killer,
                pv_move: refs.search_info.prev_pv[ply],
                tt_move,
            };
            sort_moves(&mut moves, &ctx);
        }
        let p = refs.params;
        let mut best_score: i32 = -INFINITY;
        let mut best_move: Option<ChessMove> = None;
        let mut captures: Vec<ChessMove> = Vec::new();
        let mut quiets: Vec<ChessMove> = Vec::new();
        let n = moves.len();
        if n == 0 {
            return if in_check {
                mated_in(ply)
            } else {
                DRAW
            };
        }

        let mut i: usize = 0;
        while i < n
            invariant
                refs.wf(),
                refs.restored(old(refs)),
                refs.board.ply == ply,
                ply + 1 < MAX_PLY,
                n == moves@.len(),
                forall|k: int| 0 <= k < moves@.len() ==> (#[trigger] moves@[k]).wf(),
                forall|k: int| 0 <= k < captures@.len() ==> (#[trigger] captures@[k]).wf(),
                forall|k: int| 0 <= k < quiets@.len() ==> (#[trigger] quiets@[k]).wf(),
                -INFINITY <= alpha,
                beta <= INFINITY,
                alpha >= beta ==> best_move is Some,
                best_move is None ==> alpha < beta && best_score == -INFINITY,
                best_move matches Some(bm) ==> bm.wf() && -INFINITY < best_score < INFINITY,
                i > 0 ==> best_move is Some,
                0 <= depth <= MAX_DEPTH + 1,
                -MATE_BOUND < eval < MATE_BOUND,
                p == refs.params,
                p.wf(),
            ensures
                n > 0 ==> best_move is Some,
            decreases n - i,
        {
            if alpha >= beta {
                break;
            }
            let m = moves[i];
            let mut skip = false;
            if !is_root && i > 0 && alpha > -MATE_BOUND {
                if !pv_node && !in_check && !m.is_capture() && depth <= p.fp_depth && eval
                    + scaled(p.fp_margin, depth) + p.fp_fixed_margin < alpha {
                    break;
                }
                if depth < p.see_depth {
                    let margin = if m.is_capture() {
                        p.see_noisy_margin
                    } else {
                        p.see_quiet_margin
                    };
                    let wins = match see(&pieces, &m, -scaled(margin, depth)) {
                        Some(b) => b,
                        None => true,
                    };
                    skip = !wins;
                }
            }
            if !skip {
                let reducible = i >= p.lmr_moves_played && depth >= p.lmr_depth && ply >= 3
                    && !m.is_capture() && !m.is_promotion() && !in_check && killer != Some(m);
                let score = Search::search_move(refs, &m, i, depth, alpha, beta, reducible);
                if score > best_score {
                    best_score = score;
                    best_move = Some(m);
                    if score > alpha {
                        alpha = score;
                        Search::update_pv(refs, best_move, ply);
                    }
                }
                if alpha < beta {
                    if m.is_capture() {
                        captures.push(m);
                    } else {
                        quiets.push(m);
                    }
                }
            }
            i = i + 1;
        }
        let bound = if best_score <= original_alpha {
            Bound::Alpha
        } else if best_score >= beta {
            Bound::Beta
        } else {
            Bound::Exact
        };
        if !refs.search_info.terminated {
            if matches!(bound, Bound::Beta) {
                match best_move {
                    Some(bm) => Search::update_ordering_heuristics(
                        refs,
                        depth,
                        bm,
                        &captures,
                        &quiets,
                    ),
                    None => {},
                }
            }
            if refs.tt_enabled {
                refs.tt.write(hash, depth, best_score, bound, best_move, ply);
            }
        }
        best_score
    }

    /// Searches `depth` in a window around `previous`, doubling the window's
    /// width on the side the score fell out of, until the score falls inside;
    /// after `ASPIRATION_TRIES` narrow windows, the full window.
    pub fn aspiration(refs: &mut SearchRefs, depth: i32, previous: i32) -> (r: i32)
        requires
            old(refs).wf(),
            old(refs).board.ply == 0,
            1 <= depth <= MAX_DEPTH,
            -INFINITY < previous < INFINITY,
        ensures
            final(refs).wf(),
            final(refs).restored(old(refs)),
            -INFINITY < r < INFINITY,
            !final(refs).search_info.terminated && old(refs).tt_enabled && legal_of(
                old(refs).board.pos,
            ).len() > 0 ==> root_entry_written(
                final(refs).tt.entries@,
                old(refs).board.pos,
                depth as int,
                -INFINITY as int,
                INFINITY as int,
                r as int,
            ),
    {
        let mut delta: i32 = ASPIRATION_WINDOW;
        let mut alpha: i32 = if previous - delta < -INFINITY {
            -INFINITY
        } else {
            previous - delta
        };
        let mut beta: i32 = if previous + delta > INFINITY {
            INFINITY
        } else {
            previous + delta
        };
        let mut tries: u32 = 0;
        while tries < ASPIRATION_TRIES
            invariant
                old(refs).board.ply == 0,
                refs.wf(),
                refs.restored(old(refs)),
                -INFINITY <= alpha < previous < beta <= INFINITY,
                ASPIRATION_WINDOW <= delta <= 2 * INFINITY,
                1 <= depth <= MAX_DEPTH,
            decreases ASPIRATION_TRIES - tries,
        {
            let score = Search::alpha_beta(refs, depth, alpha, beta);
            if refs.search_info.terminated {
                return score;
            }
            if score <= alpha || score >= beta {
                delta = if delta > INFINITY {
                    2 * INFINITY
                } else {
                    2 * delta
                };
            }
            if score <= alpha {
                alpha = if previous - delta < -INFINITY {
                    -INFINITY
                } else {
                    previous - delta
                };
            } else if score >= beta {
                beta = if previous + delta > INFINITY {
                    INFINITY
                } else {
                    previous + delta
                };
            } else {
                proof {
                    assert(bound_spec(score as int, alpha as int, beta as int) == bound_spec(
                        score as int,
                        -INFINITY as int,
                        INFINITY as int,
                    ));
                }
                return score;
            }
            tries = tries + 1;
        }
        Search::alpha_beta(refs, depth, -INFINITY, INFINITY)
    }

    /// Keeps the best line of the finished iteration for the next one's ordering.
    fn keep_line(info: &mut SearchInfo, line: &Vec<ChessMove>)
        requires
            old(info).wf(),
            line@.len() <= MAX_PLY,
            forall|i: int| 0 <= i < line@.len() ==> (#[trigger] line@[i]).wf(),
        ensures
            final(info).wf(),
            final(info).ply == old(info).ply,
    {
        let mut i: usize = 0;
        while i < MAX_PLY
            invariant
                info.wf(),
                info.ply == old(info).ply,
                line@.len() <= MAX_PLY,
                forall|k: int| 0 <= k < line@.len() ==> (#[trigger] line@[k]).wf(),
            decreases MAX_PLY - i,
        {
            if i < line.len() {
                info.prev_pv.set(i, Some(line[i]));
            } else {
                info.prev_pv.set(i, None);
            }
            i = i + 1;
        }
    }

    /// Searches depth 1, 2, ... up to the requested depth, while time is
    /// left: shallow iterations with the full window, deeper ones with an
    /// aspiration window around the last score. An iteration cut short by
    /// the clock is dropped. The move to play is the first of the deepest
    /// completed iteration's line, or else the first legal move.
    pub fn iterative_deepening(refs: &mut SearchRefs) -> (r: SearchOutcome)
        requires
            old(refs).wf(),
            old(refs).board.ply == 0,
            old(refs).search_params.depth <= MAX_DEPTH,
        ensures
            final(refs).wf(),
            final(refs).restored(old(refs)),
            r.best_move is Some <==> legal_of(old(refs).board.pos).len() > 0,
            r.best_move matches Some(m) ==> legal_of(old(refs).board.pos).contains(m),
            r.reports@.len() <= MAX_DEPTH,
            forall|i: int, j: int|
                0 <= i < r.reports@.len() && 0 <= j < r.reports@[i].pv@.len() ==> (
                #[trigger] r.reports@[i].pv@[j]).wf(),
            !final(refs).search_info.terminated && old(refs).search_params.depth >= 1
                ==> r.reports@.len() >= 1,
            forall|i: int|
                0 <= i < r.reports@.len() ==> -INFINITY < (#[trigger] r.reports@[i]).score
                    < INFINITY,
    {
        let legal = refs.board.legal_moves();
        let mut best_move: Option<ChessMove> = None;
        let mut reports: Vec<IterationReport> = Vec::new();
        let mut score: i32 = 0;
        let max_depth = refs.search_params.depth;
        let mut depth: i32 = 1;
        while depth <= max_depth
            invariant_except_break
                reports@.len() <= depth - 1,
            invariant
                reports@.len() <= MAX_DEPTH,
                refs.wf(),
                refs.restored(old(refs)),
                refs.board.ply == 0,
                max_depth == old(refs).search_params.depth,
                max_depth <= MAX_DEPTH,
                1 <= depth,
                -INFINITY < score < INFINITY,
                legal@ == legal_of(old(refs).board.pos),
                best_move matches Some(m) ==> legal@.contains(m),
                forall|i: int, j: int|
                    0 <= i < reports@.len() && 0 <= j < reports@[i].pv@.len() ==> (
                    #[trigger] reports@[i].pv@[j]).wf(),
                depth >= 2 ==> reports@.len() >= 1 || refs.search_info.terminated,
                forall|i: int|
                    0 <= i < reports@.len() ==> -INFINITY < (#[trigger] reports@[i]).score
                        < INFINITY,
            ensures
                max_depth >= 1 ==> reports@.len() >= 1 || refs.search_info.terminated,
            decreases max_depth + 1 - depth,
        {
            let s = if depth < ASPIRATION_DEPTH {
                Search::alpha_beta(refs, depth, -INFINITY, INFINITY)
            } else {
                Search::aspiration(refs, depth, score)
            };
            if refs.search_info.terminated {
                break;
            }
            score = s;
            let line = refs.search_info.root_pv();
            if line.len() > 0 && contains_move(&legal, &line[0]) {
                best_move = Some(line[0]);
            }
            Search::keep_line(&mut refs.search_info, &line);
            let time_ms = refs.search_info.elapsed();
            let ghost before = reports@;
            reports.push(
                IterationReport {
                    depth,
                    sel_depth: refs.search_info.sel_depth,
                    nodes: refs.search_info.nodes,
                    score,
                    pv: line,
                    time_ms,
                },
            );
            proof {
                assert forall|i: int, j: int|
                    0 <= i < reports@.len() && 0 <= j < reports@[i].pv@.len() implies (
                    #[trigger] reports@[i].pv@[j]).wf() by {
                    if i < before.len() {
                        assert(reports@[i] == before[i]);
                    }
                }
                assert forall|i: int| 0 <= i < reports@.len() implies -INFINITY < (
                #[trigger] reports@[i]).score < INFINITY by {
                    if i < before.len() {
                        assert(reports@[i] == before[i]);
                    }
                }
            }
            if time_ms >= refs.search_params.search_time {
                break;
            }
            depth = depth + 1;
        }
        if best_move.is_none() && legal.len() > 0 {
            best_move = Some(legal[0]);
            proof {
                assert(legal@.contains(legal@[0]));
            }
        }
        SearchOutcome { best_move, reports }
    }
}

/// Whether `m` is among `moves`.
pub fn contains_move(moves: &Vec<ChessMove>, m: &ChessMove) -> (r: bool)
    ensures
        r == moves@.contains(*m),
{
    let mut i: usize = 0;
    while i < moves.len()
        invariant
            i <= moves@.len(),
            forall|k: int| 0 <= k < i ==> moves@[k] != *m,
        decreases moves@.len() - i,
    {
        if moves[i] == *m {
            proof {
                assert(moves@[i as int] == *m);
            }
            return true;
        }
        i = i + 1;
    }
    false
}

} // verus!
