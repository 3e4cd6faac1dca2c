use vstd::prelude::*;
use crate::types::{Mv, GStatus, INFINITY, score_ok, default_move, spec_default_move, mv_text};
use crate::killer::KillerMoves;
use crate::tt::{TranspositionTable, tt_probe_hit};
use crate::eval::Eval;
use crate::ordering::move_odering;
use crate::board::{board_hash, board_status, side_to_move, gen_moves, color_on, play_move,
    now_instant, elapsed_millis, print_info};

verus! {

/// Score of a node at which the search stops descending: a checkmated side
/// to move scores minus INFINITY from its own perspective whatever the
/// window or move order, a drawn position scores exactly 0, and an ongoing
/// position scores its static evaluation.
pub open spec fn spec_leaf_score(status: GStatus, evaluation: i64) -> int {
    match status {
        GStatus::Won => -(INFINITY as int),
        GStatus::Drawn => 0,
        GStatus::Ongoing => evaluation as int,
    }
}

pub fn leaf_score(status: GStatus, evaluation: i64) -> (r: i64)
    ensures
        r as int == spec_leaf_score(status, evaluation),
        status == GStatus::Won ==> r == -INFINITY,
        status == GStatus::Drawn ==> r == 0,
        status == GStatus::Ongoing ==> r == evaluation,
{
    match status {
        GStatus::Won => -INFINITY,
        GStatus::Drawn => 0,
        GStatus::Ongoing => evaluation,
    }
}

/// One search session: the node budget and deadline, the shared killer and
/// transposition tables, the evaluator, and the progress bookkeeping of the
/// iterative-deepening driver.
pub struct Search {
    pub curr_score: i64,
    pub nodes: u64,
    pub tt: TranspositionTable,
    pub eval: Eval,
    pub killer: KillerMoves,
    pub depth: u64,
    pub start_time: u128,
    pub end_time: u128,
    pub max_depth: u64,
    pub max_nodes: u64,
    pub pv: Vec<Mv>,
}

impl Search {
    /// The killer arena has its fixed size and every cached entry holds a
    /// safe score and a well formed move.
    pub open spec fn wf(self) -> bool {
        &&& self.killer.wf()
        &&& forall|k: u64|
            self.tt@.contains_key(k) ==> score_ok((#[trigger] self.tt@[k]).0) && self.tt@[k].3.wf()
    }

    pub fn new() -> (r: Search)
        ensures
            r.wf(),
            r.curr_score == 0,
            r.nodes == 1,
            r.depth == 0,
            r.start_time == 1,
            r.end_time == 1,
            r.max_depth == 100,
            r.max_nodes == u64::MAX,
            r.pv@.len() == 0,
            r.tt@ == Map::<u64, (i64, i64, i64, Mv)>::empty(),
            forall|d: int| r.killer.slots(d) == (spec_default_move(), spec_default_move()),
    {
        Search {
            curr_score: 0,
            nodes: 1,
            tt: TranspositionTable::new(),
            eval: Eval::new(),
            killer: KillerMoves::new(),
            depth: 0,
            start_time: 1,
            end_time: 1,
            max_depth: 100,
            max_nodes: u64::MAX,
            pv: Vec::new(),
        }
    }

    /// Capture-only search: stand pat on the static evaluation, then try
    /// the capturing moves alone, fail-hard against beta.  Checkmate and
    /// draw leaves score through `leaf_score`.  Quiescence has no killer or
    /// transposition interaction: it reads and writes neither table, and
    /// takes the capturing moves in generation order.
    pub fn quisearch(
        &mut self,
        board: &cozy_chess::Board,
        depth: u64,
        alpha: i64,
        beta: i64,
        time: &std::time::Instant,
        hault: &bool,
    ) -> (r: i64)
        requires
            old(self).wf(),
            score_ok(alpha),
            score_ok(beta),
        ensures
            final(self).wf(),
            score_ok(r),
            alpha <= beta ==> r <= beta || r == 0,
            final(self).nodes >= old(self).nodes,
            final(self).tt@ == old(self).tt@,
            final(self).killer == old(self).killer,
            final(self).max_depth == old(self).max_depth,
            final(self).max_nodes == old(self).max_nodes,
            final(self).end_time == old(self).end_time,
            *hault || old(self).nodes > old(self).max_nodes ==> final(self).nodes <= old(
                self,
            ).nodes + 1,
        decreases depth,
    {
        if self.nodes < u64::MAX {
            self.nodes = self.nodes + 1;
        }

        let stm = side_to_move(board);
        let mvs = gen_moves(board);
        let mut cap_moves: Vec<Mv> = Vec::new();
        let mut i: usize = 0;
        while i < mvs.len()
            invariant
                i <= mvs@.len(),
                forall|n: int| 0 <= n < mvs@.len() ==> (#[trigger] mvs@[n]).wf(),
                forall|n: int| 0 <= n < cap_moves@.len() ==> (#[trigger] cap_moves@[n]).wf(),
            decreases mvs@.len() - i,
        {
            let mv = mvs[i];
            let captures = match color_on(board, mv.to) {
                Some(c) => c != stm,
                None => false,
            };
            if captures {
                cap_moves.push(mv);
            }
            i = i + 1;
        }

        let status = board_status(board);
        let evaluation = self.eval.evaluate(board);

        if evaluation >= beta {
            return beta;
        }
        let mut cur_alpha = alpha;
        if cur_alpha < evaluation {
            cur_alpha = evaluation;
        }

        if cap_moves.len() == 0 || depth == 0 || status != GStatus::Ongoing || elapsed_millis(time)
            > self.end_time || *hault || self.nodes > self.max_nodes || self.depth
            > self.max_depth {
            return leaf_score(status, evaluation);
        }

        let mut i: usize = 0;
        while i < cap_moves.len()
            invariant
                self.wf(),
                score_ok(cur_alpha),
                score_ok(beta),
                depth >= 1,
                !*hault,
                alpha <= beta ==> cur_alpha <= beta,
                old(self).nodes <= old(self).max_nodes,
                self.nodes >= old(self).nodes,
                self.tt@ == old(self).tt@,
                self.killer == old(self).killer,
                self.max_depth == old(self).max_depth,
                self.max_nodes == old(self).max_nodes,
                self.end_time == old(self).end_time,
                forall|n: int| 0 <= n < cap_moves@.len() ==> (#[trigger] cap_moves@[n]).wf(),
            decreases cap_moves@.len() - i,
        {
            let mv = cap_moves[i];
            if let Some(child) = play_move(board, &mv) {
                let s = self.quisearch(&child, depth - 1, -beta, -cur_alpha, time, hault);
                let score = -s;
                if score >= beta {
                    return beta;
                }
                if score > cur_alpha {
                    cur_alpha = score;
                }
            }
            i = i + 1;
        }
        cur_alpha
    }

    /// Negamax with alpha-beta pruning over the ordered move list.  An
    /// exact-window transposition hit returns the cached result; a leaf
    /// scores through `leaf_score`; a beta cutoff records the move in the
    /// killer table; the result is cached unconditionally; the root-depth
    /// call emits one progress line.
    pub fn negamax(
        &mut self,
        board: &cozy_chess::Board,
        depth: u64,
        alpha: i64,
        beta: i64,
        time: &std::time::Instant,
        hault: &bool,
    ) -> (r: (i64, Mv))
        requires
            old(self).wf(),
            score_ok(alpha),
            score_ok(beta),
        ensures
            final(self).wf(),
            score_ok(r.0),
            r.1.wf(),
            final(self).nodes >= old(self).nodes,
            final(self).max_depth == old(self).max_depth,
            final(self).max_nodes == old(self).max_nodes,
            final(self).end_time == old(self).end_time,
            *hault || old(self).nodes > old(self).max_nodes ==> final(self).nodes <= old(
                self,
            ).nodes + 1,
        decreases depth,
    {
        if self.nodes < u64::MAX {
            self.nodes = self.nodes + 1;
        }
        self.pv = Vec::new();

        let h = board_hash(board);
        if let Some(hit) = tt_probe_hit(self.tt.get(h), alpha, beta) {
            return hit;
        }

        let moves_list = move_odering(board, depth, &self.killer, &self.tt);
        let mut best_move = if moves_list.len() == 0 {
            default_move()
        } else {
            moves_list[0].0
        };
        let mut best_score: i64 = -INFINITY;

        let status = board_status(board);
        if depth == 0 || status != GStatus::Ongoing || elapsed_millis(time) > self.end_time
            || *hault || self.nodes > self.max_nodes || self.depth > self.max_depth {
            let evaluation = if status == GStatus::Ongoing {
                self.eval.evaluate(board)
            } else {
                0
            };
            return (leaf_score(status, evaluation), best_move);
        }

        let mut alpha = alpha;
        let mut cut = false;
        let mut i: usize = 0;
        while i < moves_list.len() && !cut
            invariant
                self.wf(),
                score_ok(alpha),
                score_ok(beta),
                score_ok(best_score),
                best_move.wf(),
                depth >= 1,
                !*hault,
                old(self).nodes <= old(self).max_nodes,
                self.nodes >= old(self).nodes,
                self.max_depth == old(self).max_depth,
                self.max_nodes == old(self).max_nodes,
                self.end_time == old(self).end_time,
                forall|n: int| 0 <= n < moves_list@.len() ==> (#[trigger] moves_list@[n]).0.wf(),
            decreases moves_list@.len() - i,
        {
            let mv = moves_list[i].0;
            if let Some(child) = play_move(board, &mv) {
                let s = self.negamax(&child, depth - 1, -beta, -alpha, time, hault).0;
                self.curr_score = -s;

                if self.curr_score > best_score {
                    best_move = mv;
                    best_score = self.curr_score;
                }
                if best_score > alpha {
                    alpha = best_score;
                }
                if alpha >= beta {
                    self.killer.set_killer_move(depth as usize, mv);
                    cut = true;
                } else if best_score < alpha {
                    best_score = self.quisearch(board, 1, alpha, beta, time, hault);
                }
            }
            i = i + 1;
        }

        self.tt.insert(h, (best_score, alpha, beta, best_move));

        if self.depth == depth {
            self.pv.push(best_move);
            let text = mv_text(&best_move);
            let ms = elapsed_millis(time);
            let secs = ms / 1000;
            let nps128: u128 = if ms > 0 {
                (self.nodes as u128) * 1000 / ms
            } else {
                0
            };
            let nps: u64 = if nps128 > u64::MAX as u128 {
                u64::MAX
            } else {
                nps128 as u64
            };
            print_info(self.depth, best_score, secs, self.nodes, nps, &text);
        }
        (best_score, best_move)
    }

    /// Iterative-deepening driver: run a full-window negamax at each depth
    /// from 1 up to the configured maximum and return the last completed
    /// iteration's (score, move).  An iteration during which the deadline,
    /// the node budget or the stop flag fired may have been cut short
    /// mid-recursion, so its result is discarded: results come only from
    /// fully completed iterations.  With the stop flag already raised, no
    /// iteration runs and the null sentinel move is returned.
    pub fn iter_deepning(
        &mut self,
        board: &cozy_chess::Board,
        depth: Option<u64>,
        nodes: Option<u64>,
        time: Option<u128>,
        hault: &bool,
    ) -> (r: (i64, Mv))
        requires
            old(self).wf(),
        ensures
            final(self).wf(),
            score_ok(r.0),
            r.1.wf(),
            final(self).max_depth == (match depth {
                Some(d) => d,
                None => 100,
            }),
            final(self).max_nodes == (match nodes {
                Some(n) => n,
                None => u64::MAX,
            }),
            final(self).end_time == (match time {
                Some(t) => t,
                None => u128::MAX,
            }),
            *hault ==> r.1 == spec_default_move(),
    {
        let start_time = now_instant();
        self.max_nodes = match nodes {
            Some(n) => n,
            None => u64::MAX,
        };
        self.max_depth = match depth {
            Some(d) => d,
            None => 100,
        };
        self.end_time = match time {
            Some(t) => t,
            None => u128::MAX,
        };
        self.nodes = 1;
        self.depth = 1;

        let mut best_move = default_move();
        let mut best_score: i64 = -INFINITY;

        let ghost s0 = *self;
        let mut d: u64 = 1;
        while d <= self.max_depth
            invariant
                self.wf(),
                score_ok(best_score),
                best_move.wf(),
                *hault ==> best_move == spec_default_move(),
                self.max_depth == s0.max_depth,
                self.max_nodes == s0.max_nodes,
                self.end_time == s0.end_time,
            decreases self.max_depth + 1 - d,
        {
            if self.nodes > self.max_nodes || elapsed_millis(&start_time) > self.end_time
                || *hault {
                break;
            }
            let res = self.negamax(board, d, -INFINITY, INFINITY, &start_time, hault);
            if self.depth < u64::MAX {
                self.depth = self.depth + 1;
            }

            // the budget may have expired inside this iteration, cutting it
            // short mid-recursion: such a result is never used
            if self.nodes > self.max_nodes || elapsed_millis(&start_time) > self.end_time
                || *hault {
                break;
            }
            best_score = res.0;
            best_move = res.1;
            if d == u64::MAX {
                break;
            }
            d = d + 1;
        }
        (best_score, best_move)
    }
}

} // verus!
