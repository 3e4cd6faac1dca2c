use vstd::prelude::*;
use vstd::seq_lib::group_to_multiset_ensures;
use crate::types::{Mv, PieceKind, spec_mvv_lva, mvv_lva_score, spec_piece_value, get_piece_value,
    spec_kind_of_index, kind_of_index, KILLER_VALUE, TTMOVE_VALUE};
use crate::killer::KillerMoves;
use crate::tt::TranspositionTable;
use crate::board::{board_hash, gen_moves, piece_on};

verus! {

/// One legal move together with what the orderer reads off the position:
/// the piece being moved and the piece on the destination square, if any.
#[derive(Clone, Copy, Debug)]
pub struct MoveInfo {
    pub mv: Mv,
    pub attacker: Option<PieceKind>,
    pub victim: Option<PieceKind>,
}

/// Priority of one move, first matching rule wins: the transposition-table
/// move gets a fixed bonus, a capture is scored by victim-dominant
/// MVV-LVA, a move in either killer slot gets a fixed bonus, a promotion
/// is worth a tenth of the promoted piece, and any other quiet move is 0.
pub open spec fn spec_move_score(
    mv: Mv,
    attacker: Option<PieceKind>,
    victim: Option<PieceKind>,
    tt_move: Option<Mv>,
    k0: Mv,
    k1: Mv,
) -> int {
    if tt_move == Some(mv) {
        TTMOVE_VALUE as int
    } else if victim is Some {
        match attacker {
            Some(a) => spec_mvv_lva(a, victim->Some_0),
            None => 0,
        }
    } else if mv == k0 || mv == k1 {
        KILLER_VALUE as int
    } else if mv.promo <= 5 {
        spec_piece_value(spec_kind_of_index(mv.promo as int)) / 10
    } else {
        0
    }
}

pub fn move_score(
    mv: Mv,
    attacker: Option<PieceKind>,
    victim: Option<PieceKind>,
    tt_move: Option<Mv>,
    k0: Mv,
    k1: Mv,
) -> (r: i64)
    ensures
        r as int == spec_move_score(mv, attacker, victim, tt_move, k0, k1),
        0 <= r <= 200,
{
    let is_tt = match tt_move {
        Some(t) => t == mv,
        None => false,
    };
    if is_tt {
        TTMOVE_VALUE
    } else if let Some(v) = victim {
        match attacker {
            Some(a) => mvv_lva_score(a, v),
            None => 0,
        }
    } else if mv == k0 || mv == k1 {
        KILLER_VALUE
    } else if mv.promo <= 5 {
        get_piece_value(kind_of_index(mv.promo)) / 10
    } else {
        0
    }
}

/// The sequence of (move, priority) pairs in generation order.
pub open spec fn spec_scored(
    moves: Seq<MoveInfo>,
    tt_move: Option<Mv>,
    k0: Mv,
    k1: Mv,
) -> Seq<(Mv, i64)> {
    Seq::new(
        moves.len(),
        |i: int| (moves[i].mv, spec_move_score(moves[i].mv, moves[i].attacker, moves[i].victim, tt_move, k0, k1) as i64),
    )
}

/// The pairs of `q` carrying priority `s`, in order.
pub open spec fn with_score(q: Seq<(Mv, i64)>, s: i64) -> Seq<(Mv, i64)> {
    q.filter(|p: (Mv, i64)| p.1 == s)
}

/// A sequence none of whose pairs carries priority `s` filters to nothing.
proof fn lemma_with_score_none(q: Seq<(Mv, i64)>, s: i64)
    requires
        forall|j: int| 0 <= j < q.len() ==> (#[trigger] q[j]).1 != s,
    ensures
        with_score(q, s) == Seq::<(Mv, i64)>::empty(),
    decreases q.len(),
{
    broadcast use Seq::lemma_filter_push;

    if q.len() == 0 {
        reveal(Seq::filter);
        assert(with_score(q, s) =~= Seq::<(Mv, i64)>::empty());
    } else {
        lemma_with_score_none(q.drop_last(), s);
        assert(q[q.len() - 1].1 != s);
        assert(q =~= q.drop_last().push(q.last()));
    }
}

/// Score every move and sort the pairs by descending priority with a
/// stable selection: among equal priorities, generation order is kept by
/// always extracting the first remaining maximum.  The result is a
/// permutation of the scored input, and for every priority level the
/// pairs carrying it come out in exactly their input order.
pub fn order_scored(moves: &Vec<MoveInfo>, tt_move: Option<Mv>, k0: Mv, k1: Mv) -> (r: Vec<(Mv, i64)>)
    requires
        forall|i: int| 0 <= i < moves@.len() ==> (#[trigger] moves@[i]).mv.wf(),
    ensures
        r@.len() == moves@.len(),
        r@.to_multiset() == spec_scored(moves@, tt_move, k0, k1).to_multiset(),
        forall|s: i64| #[trigger] with_score(r@, s) == with_score(
            spec_scored(moves@, tt_move, k0, k1), s),
        forall|i: int, j: int| 0 <= i <= j < r@.len() ==> r@[i].1 >= r@[j].1,
        forall|i: int| 0 <= i < r@.len() ==> (#[trigger] r@[i]).0.wf(),
{
    let ghost target = spec_scored(moves@, tt_move, k0, k1);
    let mut scored: Vec<(Mv, i64)> = Vec::new();
    let mut i: usize = 0;
    while i < moves.len()
        invariant
            i <= moves@.len(),
            scored@ == target.take(i as int),
            target == spec_scored(moves@, tt_move, k0, k1),
            forall|n: int| 0 <= n < moves@.len() ==> (#[trigger] moves@[n]).mv.wf(),
        decreases moves@.len() - i,
    {
        let info = moves[i];
        let s = move_score(info.mv, info.attacker, info.victim, tt_move, k0, k1);
        scored.push((info.mv, s));
        proof {
            assert(scored@ =~= target.take(i + 1));
        }
        i = i + 1;
    }
    proof {
        assert(scored@ =~= target);
    }

    let mut rest = scored;
    let mut out: Vec<(Mv, i64)> = Vec::new();
    proof {
        broadcast use group_to_multiset_ensures;
        assert(out@.to_multiset().add(rest@.to_multiset()) =~= target.to_multiset());
        assert forall|s: i64| #[trigger] with_score(target, s) == with_score(out@, s) + with_score(
            rest@,
            s,
        ) by {
            lemma_with_score_none(out@, s);
            assert(with_score(out@, s) + with_score(rest@, s) =~= with_score(target, s));
        }
    }
    while rest.len() > 0
        invariant
            out@.to_multiset().add(rest@.to_multiset()) == target.to_multiset(),
            forall|s: i64| #[trigger] with_score(target, s) == with_score(out@, s) + with_score(
                rest@,
                s,
            ),
            out@.len() + rest@.len() == target.len(),
            forall|p: int, q: int| 0 <= p <= q < out@.len() ==> out@[p].1 >= out@[q].1,
            forall|p: int, q: int|
                0 <= p < out@.len() && 0 <= q < rest@.len() ==> out@[p].1 >= rest@[q].1,
            forall|p: int| 0 <= p < out@.len() ==> (#[trigger] out@[p]).0.wf(),
            forall|p: int| 0 <= p < rest@.len() ==> (#[trigger] rest@[p]).0.wf(),
        decreases rest@.len(),
    {
        let mut bi: usize = 0;
        let mut k: usize = 1;
        while k < rest.len()
            invariant
                rest@.len() > 0,
                bi < k,
                k <= rest@.len(),
                forall|j: int| 0 <= j < k ==> rest@[j].1 <= rest@[bi as int].1,
                forall|j: int| 0 <= j < bi ==> rest@[j].1 < rest@[bi as int].1,
            decreases rest@.len() - k,
        {
            if rest[k].1 > rest[bi].1 {
                bi = k;
            }
            k = k + 1;
        }
        let ghost old_out = out@;
        let ghost old_rest = rest@;
        let x = rest.remove(bi);
        out.push(x);
        proof {
            broadcast use group_to_multiset_ensures;
            assert(old_rest.contains(x)) by {
                assert(old_rest[bi as int] == x);
            }
            assert(old_rest.to_multiset().count(x) > 0);
            assert(out@.to_multiset() =~= old_out.to_multiset().insert(x));
            assert(rest@.to_multiset() =~= old_rest.to_multiset().remove(x));
            assert(out@.to_multiset().add(rest@.to_multiset()) =~= old_out.to_multiset().add(
                old_rest.to_multiset(),
            ));
            // every remaining element sits at some old index, so the chosen
            // maximum bounds it
            assert(forall|q: int| 0 <= q < rest@.len() ==> rest@[q].1 <= x.1) by {
                assert(forall|q: int| 0 <= q < bi ==> rest@[q] == old_rest[q]);
                assert(forall|q: int|
                    bi <= q < rest@.len() ==> rest@[q] == old_rest[q + 1]);
            }
            assert(forall|q: int| 0 <= q < rest@.len() ==> (#[trigger] rest@[q]).0.wf()) by {
                assert(forall|q: int| 0 <= q < bi ==> rest@[q] == old_rest[q]);
                assert(forall|q: int|
                    bi <= q < rest@.len() ==> rest@[q] == old_rest[q + 1]);
            }
            let pre = old_rest.subrange(0, bi as int);
            let suf = old_rest.subrange(bi as int + 1, old_rest.len() as int);
            assert(old_rest =~= (pre + seq![x]) + suf);
            assert(rest@ =~= pre + suf);
            assert(out@ =~= old_out + seq![x]);
            assert forall|s: i64| #[trigger] with_score(target, s) == with_score(out@, s)
                + with_score(rest@, s) by {
                broadcast use Seq::filter_distributes_over_add;

                assert(with_score(target, s) == with_score(old_out, s) + with_score(old_rest, s));
                assert(with_score(old_rest, s) == (with_score(pre, s) + with_score(seq![x], s))
                    + with_score(suf, s));
                assert(with_score(out@, s) == with_score(old_out, s) + with_score(seq![x], s));
                assert(with_score(rest@, s) == with_score(pre, s) + with_score(suf, s));
                if x.1 == s {
                    // the extracted pair is the first remaining one with
                    // this priority: everything before it scores strictly
                    // lower
                    lemma_with_score_none(pre, s);
                    assert(with_score(out@, s) + with_score(rest@, s) =~= with_score(target, s));
                } else {
                    lemma_with_score_none(seq![x], s);
                    assert(with_score(out@, s) + with_score(rest@, s) =~= with_score(target, s));
                }
            }
        }
    }
    proof {
        broadcast use group_to_multiset_ensures;
        assert(rest@.to_multiset().len() == 0);
        assert(out@.to_multiset().add(rest@.to_multiset()) =~= out@.to_multiset());
        assert forall|s: i64| #[trigger] with_score(out@, s) == with_score(target, s) by {
            lemma_with_score_none(rest@, s);
            assert(with_score(out@, s) + with_score(rest@, s) =~= with_score(out@, s));
        }
    }
    out
}

/// The ordering law on the classic scenario: when the generation list
/// holds one quiet move, then a capture of a queen by a pawn, then a quiet
/// move recorded as the transposition move, then another quiet move (none
/// of the quiet moves a killer or a promotion), the three clauses of
/// `order_scored`'s contract leave exactly one possible output: the
/// transposition move first, the capture second, and the remaining quiet
/// moves last in their generation order.
#[verifier::rlimit(60)]
pub proof fn lemma_ordering_scenario(
    moves: Seq<MoveInfo>,
    tt_move: Option<Mv>,
    k0: Mv,
    k1: Mv,
    r: Seq<(Mv, i64)>,
)
    requires
        moves.len() == 4,
        moves[0].victim is None,
        moves[0].mv.promo > 5,
        moves[0].mv != k0 && moves[0].mv != k1,
        tt_move != Some(moves[0].mv),
        moves[1].attacker == Some(PieceKind::Pawn),
        moves[1].victim == Some(PieceKind::Queen),
        tt_move != Some(moves[1].mv),
        moves[2].victim is None,
        tt_move == Some(moves[2].mv),
        moves[3].victim is None,
        moves[3].mv.promo > 5,
        moves[3].mv != k0 && moves[3].mv != k1,
        tt_move != Some(moves[3].mv),
        r.len() == 4,
        forall|s: i64| #[trigger] with_score(r, s) == with_score(
            spec_scored(moves, tt_move, k0, k1), s),
        forall|i: int, j: int| 0 <= i <= j < r.len() ==> r[i].1 >= r[j].1,
    ensures
        r == seq![
            (moves[2].mv, 60i64),
            (moves[1].mv, 55i64),
            (moves[0].mv, 0i64),
            (moves[3].mv, 0i64),
        ],
{
    broadcast use Seq::lemma_filter_push;

    let t = spec_scored(moves, tt_move, k0, k1);
    let e = Seq::<(Mv, i64)>::empty();
    assert(t == e.push((moves[0].mv, 0i64)).push((moves[1].mv, 55i64)).push(
        (moves[2].mv, 60i64),
    ).push((moves[3].mv, 0i64))) by {
        assert(t =~= e.push((moves[0].mv, 0i64)).push((moves[1].mv, 55i64)).push(
            (moves[2].mv, 60i64),
        ).push((moves[3].mv, 0i64)));
    }
    assert(r == e.push(r[0]).push(r[1]).push(r[2]).push(r[3])) by {
        assert(r =~= e.push(r[0]).push(r[1]).push(r[2]).push(r[3]));
    }
    lemma_with_score_none(e, 60);
    lemma_with_score_none(e, 55);
    lemma_with_score_none(e, 0);
    assert(with_score(r, 60) == with_score(t, 60));
    assert(with_score(r, 55) == with_score(t, 55));
    assert(with_score(r, 0) == with_score(t, 0));
    assert(with_score(t, 60) == seq![(moves[2].mv, 60i64)]);
    assert(with_score(t, 55) == seq![(moves[1].mv, 55i64)]);
    assert(with_score(t, 0) == seq![(moves[0].mv, 0i64), (moves[3].mv, 0i64)]);
    // each of r's pairs carries one of the three priorities
    assert forall|i: int| 0 <= i < 4 implies r[i].1 == 60 || r[i].1 == 55 || r[i].1 == 0 by {
        if r[i].1 != 60 && r[i].1 != 55 && r[i].1 != 0 {
            let s = r[i].1;
            assert(with_score(r, s) == with_score(t, s));
            assert forall|j: int| 0 <= j < t.len() implies (#[trigger] t[j]).1 != s by {}
            lemma_with_score_none(t, s);
            assert(r.filter(|p: (Mv, i64)| p.1 == s).contains(r[i])) by {
                Seq::lemma_filter_contains(r, |p: (Mv, i64)| p.1 == s, i);
            }
        }
    }
    // the descending order and the per-priority filters force the score
    // layout 60, 55, 0, 0
    assert(r[0].1 == 60) by {
        if r[0].1 != 60 {
            assert(forall|j: int| 0 <= j < r.len() ==> (#[trigger] r[j]).1 != 60);
            lemma_with_score_none(r, 60);
        }
    }
    assert(r[1].1 == 55) by {
        if r[1].1 == 60 {
            assert(with_score(r, 60).len() >= 2);
        } else if r[1].1 != 55 {
            assert(forall|j: int| 0 <= j < r.len() ==> (#[trigger] r[j]).1 != 55);
            lemma_with_score_none(r, 55);
        }
    }
    assert(r[2].1 == 0) by {
        if r[2].1 == 55 {
            assert(with_score(r, 55).len() >= 2);
        }
    }
    assert(r[3].1 == 0);
    // with the layout fixed, each filter names the slots outright
    assert(with_score(r, 60) =~= seq![r[0]]);
    assert(with_score(r, 55) =~= seq![r[1]]);
    assert(with_score(r, 0) =~= seq![r[2], r[3]]);
    assert(r[0] == (moves[2].mv, 60i64)) by {
        assert(r[0] == seq![r[0]][0]);
        assert(with_score(r, 60)[0] == seq![(moves[2].mv, 60i64)][0]);
    }
    assert(r[1] == (moves[1].mv, 55i64)) by {
        assert(r[1] == seq![r[1]][0]);
        assert(with_score(r, 55)[0] == seq![(moves[1].mv, 55i64)][0]);
    }
    assert(r[2] == (moves[0].mv, 0i64)) by {
        assert(r[2] == seq![r[2], r[3]][0]);
        assert(with_score(r, 0)[0] == seq![(moves[0].mv, 0i64), (moves[3].mv, 0i64)][0]);
    }
    assert(r[3] == (moves[3].mv, 0i64)) by {
        assert(r[3] == seq![r[2], r[3]][1]);
        assert(with_score(r, 0)[1] == seq![(moves[0].mv, 0i64), (moves[3].mv, 0i64)][1]);
    }
    assert(r =~= seq![
        (moves[2].mv, 60i64),
        (moves[1].mv, 55i64),
        (moves[0].mv, 0i64),
        (moves[3].mv, 0i64),
    ]);
}

/// Build the priority-ordered legal move list for this position: read the
/// transposition move for the position's hash, the killer slots for this
/// depth, generate the legal moves with their attacker and victim pieces,
/// then score and sort them.
pub fn move_odering(
    board: &cozy_chess::Board,
    depth: u64,
    km: &KillerMoves,
    tt: &TranspositionTable,
) -> (r: Vec<(Mv, i64)>)
    requires
        km.wf(),
    ensures
        forall|i: int, j: int| 0 <= i <= j < r@.len() ==> r@[i].1 >= r@[j].1,
        forall|i: int| 0 <= i < r@.len() ==> (#[trigger] r@[i]).0.wf(),
{
    let hash = board_hash(board);
    let tt_move: Option<Mv> = match tt.get(hash) {
        Some(e) => Some(e.3),
        None => None,
    };
    let ks = km.get_killer_moves(depth as usize);
    let mvs = gen_moves(board);
    let mut infos: Vec<MoveInfo> = Vec::new();
    let mut i: usize = 0;
    while i < mvs.len()
        invariant
            i <= mvs@.len(),
            forall|n: int| 0 <= n < mvs@.len() ==> (#[trigger] mvs@[n]).wf(),
            forall|n: int| 0 <= n < infos@.len() ==> (#[trigger] infos@[n]).mv.wf(),
        decreases mvs@.len() - i,
    {
        let mv = mvs[i];
        let attacker = piece_on(board, mv.from);
        let victim = piece_on(board, mv.to);
        infos.push(MoveInfo { mv, attacker, victim });
        i = i + 1;
    }
    order_scored(&infos, tt_move, ks.0, ks.1)
}

} // verus!
