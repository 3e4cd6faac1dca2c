use vstd::prelude::*;

verus! {

/// Mathematical model of the searched game tree.  A leaf carries the score
/// of the position from the perspective of the side to move there; an inner
/// node has one subtree per legal move, in move order.  Terminal positions
/// and horizon positions are leaves, so every inner node has at least one
/// child (the forest is non-empty by construction).
pub enum GameTree {
    Leaf { value: int },
    Node { children: Forest },
}

/// Non-empty list of subtrees of an inner node.
pub enum Forest {
    Last { t: Box<GameTree> },
    More { t: Box<GameTree>, rest: Box<Forest> },
}

pub open spec fn maxi(x: int, y: int) -> int {
    if x >= y {
        x
    } else {
        y
    }
}

/// True negamax value of a tree: at an inner node, the maximum over the
/// children of the negated child value.
pub open spec fn tval(t: GameTree) -> int
    decreases t,
{
    match t {
        GameTree::Leaf { value } => value,
        GameTree::Node { children } => fval(children),
    }
}

pub open spec fn fval(f: Forest) -> int
    decreases f,
{
    match f {
        Forest::Last { t } => -tval(*t),
        Forest::More { t, rest } => maxi(-tval(*t), fval(*rest)),
    }
}

/// Fail-soft alpha-beta value of a tree over the window `(alpha, beta)`:
/// children are searched left to right with the negated, narrowed window,
/// the running best score raises alpha, and the scan stops as soon as the
/// best score reaches beta.
pub open spec fn ab(t: GameTree, alpha: int, beta: int) -> int
    decreases t,
{
    match t {
        GameTree::Leaf { value } => value,
        GameTree::Node { children } => abf(children, alpha, beta),
    }
}

pub open spec fn abf(f: Forest, alpha: int, beta: int) -> int
    decreases f,
{
    match f {
        Forest::Last { t } => -ab(*t, -beta, -alpha),
        Forest::More { t, rest } => {
            let s = -ab(*t, -beta, -alpha);
            if s >= beta {
                s
            } else {
                maxi(s, abf(*rest, maxi(alpha, s), beta))
            }
        },
    }
}

/// Soundness of pruning, fail-soft form: a result at or below alpha is an
/// upper bound on the true value, a result at or beyond beta is a lower
/// bound, and a true value strictly inside the window is returned exactly.
pub proof fn lemma_ab_bounds(t: GameTree, alpha: int, beta: int)
    requires
        alpha < beta,
    ensures
        tval(t) <= alpha ==> tval(t) <= ab(t, alpha, beta) <= alpha,
        tval(t) >= beta ==> beta <= ab(t, alpha, beta) <= tval(t),
        alpha < tval(t) < beta ==> ab(t, alpha, beta) == tval(t),
    decreases t,
{
    match t {
        GameTree::Leaf { value } => {},
        GameTree::Node { children } => {
            lemma_abf_bounds(children, alpha, beta);
        },
    }
}

pub proof fn lemma_abf_bounds(f: Forest, alpha: int, beta: int)
    requires
        alpha < beta,
    ensures
        fval(f) <= alpha ==> fval(f) <= abf(f, alpha, beta) <= alpha,
        fval(f) >= beta ==> beta <= abf(f, alpha, beta) <= fval(f),
        alpha < fval(f) < beta ==> abf(f, alpha, beta) == fval(f),
    decreases f,
{
    match f {
        Forest::Last { t } => {
            lemma_ab_bounds(*t, -beta, -alpha);
        },
        Forest::More { t, rest } => {
            lemma_ab_bounds(*t, -beta, -alpha);
            let s = -ab(*t, -beta, -alpha);
            let w = -tval(*t);
            if s >= beta {
                // Only a child whose true value reaches beta can fail high.
                assert(w >= beta);
            } else {
                assert(w < beta);
                let a2 = maxi(alpha, s);
                lemma_abf_bounds(*rest, a2, beta);
            }
        },
    }
}

/// Does `s` beat the best score seen so far?  Before any child has been
/// scored there is no best score and the first child always takes the
/// slot; afterwards only a strict improvement moves the chosen index, so
/// among equal scores the earliest child is kept.
pub open spec fn beats(s: int, best: Option<int>) -> bool {
    match best {
        Option::None => true,
        Option::Some(v) => s > v,
    }
}

/// The root move-selection loop of an alpha-beta search: score the
/// children left to right with the negated, narrowed window, remember the
/// first strict running maximum and its index, raise alpha, and stop on a
/// beta cutoff.  Returns the chosen (score, child index).
pub open spec fn pick_from(
    f: Forest,
    alpha: int,
    beta: int,
    best: Option<int>,
    bidx: int,
    i: int,
) -> (int, int)
    decreases f,
{
    match f {
        Forest::Last { t } => {
            let s = -ab(*t, -beta, -alpha);
            if beats(s, best) {
                (s, i)
            } else {
                (best->Some_0, bidx)
            }
        },
        Forest::More { t, rest } => {
            let s = -ab(*t, -beta, -alpha);
            let b2 = if beats(s, best) {
                s
            } else {
                best->Some_0
            };
            let x2 = if beats(s, best) {
                i
            } else {
                bidx
            };
            let a2 = maxi(alpha, b2);
            if a2 >= beta {
                (b2, x2)
            } else {
                pick_from(*rest, a2, beta, Some(b2), x2, i + 1)
            }
        },
    }
}

/// The move an alpha-beta search of the root chooses over the window
/// `(alpha, beta)`.
pub open spec fn pick(f: Forest, alpha: int, beta: int) -> (int, int) {
    pick_from(f, alpha, beta, Option::None, 0, 0)
}

/// Index of the first child achieving the forest's best value.
pub open spec fn first_best(f: Forest) -> int
    decreases f,
{
    match f {
        Forest::Last { t } => 0,
        Forest::More { t, rest } => {
            if -tval(*t) >= fval(*rest) {
                0
            } else {
                1 + first_best(*rest)
            }
        },
    }
}

/// After the true maximum has been reached (the best score equals the
/// global value V and alpha has been raised to it), no later child can
/// strictly improve, so the chosen index never moves again.
proof fn lemma_pick_from_settled(f: Forest, beta: int, v: int, bidx: int, i: int)
    requires
        fval(f) <= v < beta,
    ensures
        pick_from(f, v, beta, Some(v), bidx, i) == (v, bidx),
    decreases f,
{
    match f {
        Forest::Last { t } => {
            lemma_ab_bounds(*t, -beta, -v);
        },
        Forest::More { t, rest } => {
            lemma_ab_bounds(*t, -beta, -v);
            let s = -ab(*t, -beta, -v);
            assert(s <= v);
            lemma_pick_from_settled(*rest, beta, v, bidx, i + 1);
        },
    }
}

/// While the first child achieving the global value V is still ahead and
/// the window's alpha sits strictly below V (and V strictly below beta),
/// the loop reaches that child, scores it exactly V, selects it, and
/// never moves off it: the outcome is (V, index of the first maximum),
/// independent of the incoming alpha and best score.
proof fn lemma_pick_from_ahead(f: Forest, alpha: int, beta: int, best: Option<int>, bidx: int, i: int)
    requires
        alpha < fval(f) < beta,
        beats(fval(f), best),
    ensures
        pick_from(f, alpha, beta, best, bidx, i) == (fval(f), i + first_best(f)),
    decreases f,
{
    let v = fval(f);
    match f {
        Forest::Last { t } => {
            lemma_ab_bounds(*t, -beta, -alpha);
        },
        Forest::More { t, rest } => {
            lemma_ab_bounds(*t, -beta, -alpha);
            let s = -ab(*t, -beta, -alpha);
            let w = -tval(*t);
            if w >= fval(*rest) {
                // this child is the first maximum: it is scored exactly
                assert(w == v);
                assert(s == v);
                let a2 = maxi(alpha, v);
                assert(a2 == v);
                lemma_pick_from_settled(*rest, beta, v, i, i + 1);
            } else {
                // the maximum is still ahead; this child stays below it
                assert(fval(*rest) == v);
                assert(w < v);
                assert(s < v) by {
                    if alpha < w {
                        // bracketed: scored exactly, and w < v
                        assert(s == w);
                    } else {
                        // fails low: clamped to at most alpha, and alpha < v
                        assert(s <= alpha);
                    }
                }
                let b2 = if beats(s, best) {
                    s
                } else {
                    best->Some_0
                };
                assert(b2 < v);
                let a2 = maxi(alpha, b2);
                assert(a2 < v);
                lemma_pick_from_ahead(*rest, a2, beta, Some(b2), if beats(s, best) { i } else { bidx }, i + 1);
            }
        },
    }
}

/// The move half of the pruning law: over any window that strictly
/// brackets the true value, the root selection returns the true value and
/// chooses the first child that achieves it - the same move a full-window
/// search chooses.
pub proof fn lemma_bracketing_window_same_move(
    f: Forest,
    a1: int,
    b1: int,
    a2: int,
    b2: int,
)
    requires
        a1 < fval(f) < b1,
        a2 < fval(f) < b2,
    ensures
        pick(f, a1, b1) == (fval(f), first_best(f)),
        pick(f, a1, b1) == pick(f, a2, b2),
{
    lemma_pick_from_ahead(f, a1, b1, Option::None, 0, 0);
    lemma_pick_from_ahead(f, a2, b2, Option::None, 0, 0);
}

/// The law behind pruning: any two windows that strictly bracket the true
/// negamax value of the tree - in particular a narrow window and the full
/// window - make the alpha-beta search return the same result, namely the
/// true value itself.  Pruning therefore never changes the score on which
/// the root decision is based.
pub proof fn lemma_bracketing_window_agrees(
    t: GameTree,
    a1: int,
    b1: int,
    a2: int,
    b2: int,
)
    requires
        a1 < tval(t) < b1,
        a2 < tval(t) < b2,
    ensures
        ab(t, a1, b1) == tval(t),
        ab(t, a1, b1) == ab(t, a2, b2),
{
    lemma_ab_bounds(t, a1, b1);
    lemma_ab_bounds(t, a2, b2);
}

} // verus!
