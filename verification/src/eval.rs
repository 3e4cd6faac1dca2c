use vstd::prelude::*;
use crate::types::{PieceKind, SideColor, spec_piece_value, get_piece_value, SCORE_BOUND};
use crate::board::{piece_on, color_on, side_to_move};

verus! {

/// Signed value of one placed piece from the perspective of the side to
/// move: own material counts positive, enemy material negative.
pub open spec fn spec_signed_value(p: (PieceKind, SideColor, u8), stm: SideColor) -> int {
    if p.1 == stm {
        spec_piece_value(p.0)
    } else {
        -spec_piece_value(p.0)
    }
}

/// Material balance of a piece placement from the perspective of the side
/// to move.
pub open spec fn spec_material(s: Seq<(PieceKind, SideColor, u8)>, stm: SideColor) -> int
    decreases s.len(),
{
    if s.len() == 0 {
        0
    } else {
        spec_material(s.drop_last(), stm) + spec_signed_value(s.last(), stm)
    }
}

/// The positional evaluator.  It decomposes the position into its piece
/// placement and scores the placement for the side to move; the score is
/// deterministic, side-to-move-relative and free of side effects.
#[derive(Clone, Copy, Debug)]
pub struct Eval {
}

impl Eval {
    pub fn new() -> (r: Eval) {
        Eval {  }
    }

    /// Sum the placement's signed piece values for the side to move.
    pub fn material_score(&self, pieces: &Vec<(PieceKind, SideColor, u8)>, stm: SideColor) -> (r:
        i64)
        requires
            pieces@.len() <= 64,
        ensures
            r as int == spec_material(pieces@, stm),
            -128000 <= r <= 128000,
    {
        let mut acc: i64 = 0;
        let mut i: usize = 0;
        while i < pieces.len()
            invariant
                i <= pieces@.len() <= 64,
                acc as int == spec_material(pieces@.take(i as int), stm),
                -2000 * i <= acc as int <= 2000 * i,
            decreases pieces@.len() - i,
        {
            let p = pieces[i];
            let v = get_piece_value(p.0);
            proof {
                assert(pieces@.take(i + 1).drop_last() =~= pieces@.take(i as int));
                assert(pieces@.take(i + 1).last() == pieces@[i as int]);
            }
            if p.1 == stm {
                acc = acc + v;
            } else {
                acc = acc - v;
            }
            i = i + 1;
        }
        proof {
            assert(pieces@.take(pieces@.len() as int) =~= pieces@);
        }
        acc
    }

    /// Read the full piece placement off the position: at most one entry
    /// per square, in strictly ascending square order.
    pub fn board_pieces(&self, board: &cozy_chess::Board) -> (r: Vec<(PieceKind, SideColor, u8)>)
        ensures
            r@.len() <= 64,
            forall|i: int| 0 <= i < r@.len() ==> (#[trigger] r@[i]).2 < 64,
            forall|i: int, j: int| 0 <= i < j < r@.len() ==> r@[i].2 < r@[j].2,
    {
        let mut out: Vec<(PieceKind, SideColor, u8)> = Vec::new();
        let mut sq: u8 = 0;
        while sq < 64
            invariant
                sq <= 64,
                out@.len() <= sq,
                forall|n: int| 0 <= n < out@.len() ==> (#[trigger] out@[n]).2 < sq,
                forall|n: int, m: int| 0 <= n < m < out@.len() ==> out@[n].2 < out@[m].2,
            decreases 64 - sq,
        {
            match (piece_on(board, sq), color_on(board, sq)) {
                (Some(p), Some(c)) => {
                    out.push((p, c, sq));
                },
                _ => {},
            }
            sq = sq + 1;
        }
        out
    }

    /// Score the position for its side to move.  The score is the material
    /// balance of the placement and stays far inside the search's score
    /// bound, and is in particular always finite (never a mate score).
    pub fn evaluate(&self, board: &cozy_chess::Board) -> (r: i64)
        ensures
            -128000 <= r <= 128000,
            -SCORE_BOUND < r < SCORE_BOUND,
    {
        let stm = side_to_move(board);
        let pieces = self.board_pieces(board);
        self.material_score(&pieces, stm)
    }
}

} // verus!
