use vstd::prelude::*;

verus! {

/// Score assigned to a checkmate, and the width of the full search window.
pub const INFINITY: i64 = 9999999;

/// Every score handled by the search stays within this bound, so that
/// negating a score can never overflow.
pub const SCORE_BOUND: i64 = 134217728;

/// Number of depth slots in the killer table.
pub const MAX_DEPTH: usize = 128;

/// Priority bonus for a move found in either killer slot.
pub const KILLER_VALUE: i64 = 10;

/// Priority bonus for the move recorded in the transposition table.
pub const TTMOVE_VALUE: i64 = 60;

/// Promotion encoding in `Mv::promo` that means "no promotion".
pub const NO_PROMO: u8 = 6;

/// The six piece kinds of the game, in increasing material order.
#[derive(Clone, Copy, PartialEq, Eq, Structural, Debug)]
pub enum PieceKind {
    Pawn,
    Knight,
    Bishop,
    Rook,
    Queen,
    King,
}

/// The two sides.
#[derive(Clone, Copy, PartialEq, Eq, Structural, Debug)]
pub enum SideColor {
    White,
    Black,
}

/// Terminal status of a position, from the perspective of the side to move:
/// `Won` means the side to move has been checkmated.
#[derive(Clone, Copy, PartialEq, Eq, Structural, Debug)]
pub enum GStatus {
    Ongoing,
    Won,
    Drawn,
}

/// A move: origin and destination square indices (0..64, a1 = 0, h8 = 63)
/// and a promotion piece index (0..6, `NO_PROMO` when the move does not
/// promote).  The all-zero move with `promo == NO_PROMO` is the null
/// sentinel, never a legal move.
#[derive(Clone, Copy, PartialEq, Eq, Structural, Debug)]
pub struct Mv {
    pub from: u8,
    pub to: u8,
    pub promo: u8,
}

impl Mv {
    /// A move is well formed when its squares are on the board and its
    /// promotion field is a piece index or the no-promotion marker.
    pub open spec fn wf(self) -> bool {
        self.from < 64 && self.to < 64 && self.promo <= 6
    }
}

/// The null sentinel move.
pub open spec fn spec_default_move() -> Mv {
    Mv { from: 0, to: 0, promo: 6 }
}

/// Default/uninitialized move marker; never a legal move.
pub fn default_move() -> (r: Mv)
    ensures
        r == spec_default_move(),
        r.wf(),
{
    Mv { from: 0, to: 0, promo: NO_PROMO }
}

/// Index of a piece kind: pawn 0 through king 5.
pub open spec fn spec_piece_index(p: PieceKind) -> int {
    match p {
        PieceKind::Pawn => 0,
        PieceKind::Knight => 1,
        PieceKind::Bishop => 2,
        PieceKind::Rook => 3,
        PieceKind::Queen => 4,
        PieceKind::King => 5,
    }
}

pub fn piece_index(p: PieceKind) -> (r: u8)
    ensures
        r == spec_piece_index(p),
        r <= 5,
{
    match p {
        PieceKind::Pawn => 0,
        PieceKind::Knight => 1,
        PieceKind::Bishop => 2,
        PieceKind::Rook => 3,
        PieceKind::Queen => 4,
        PieceKind::King => 5,
    }
}

/// The piece kind with a given index, pawn 0 through king 5.
pub open spec fn spec_kind_of_index(i: int) -> PieceKind {
    if i == 0 {
        PieceKind::Pawn
    } else if i == 1 {
        PieceKind::Knight
    } else if i == 2 {
        PieceKind::Bishop
    } else if i == 3 {
        PieceKind::Rook
    } else if i == 4 {
        PieceKind::Queen
    } else {
        PieceKind::King
    }
}

pub fn kind_of_index(i: u8) -> (r: PieceKind)
    requires
        i <= 5,
    ensures
        r == spec_kind_of_index(i as int),
{
    if i == 0 {
        PieceKind::Pawn
    } else if i == 1 {
        PieceKind::Knight
    } else if i == 2 {
        PieceKind::Bishop
    } else if i == 3 {
        PieceKind::Rook
    } else if i == 4 {
        PieceKind::Queen
    } else {
        PieceKind::King
    }
}

/// Material value of a piece kind, in centipawns.
pub open spec fn spec_piece_value(p: PieceKind) -> int {
    match p {
        PieceKind::Pawn => 100,
        PieceKind::Knight => 300,
        PieceKind::Bishop => 300,
        PieceKind::Rook => 500,
        PieceKind::Queen => 900,
        PieceKind::King => 2000,
    }
}

pub fn get_piece_value(p: PieceKind) -> (r: i64)
    ensures
        r == spec_piece_value(p),
{
    match p {
        PieceKind::Pawn => 100,
        PieceKind::Knight => 300,
        PieceKind::Bishop => 300,
        PieceKind::Rook => 500,
        PieceKind::Queen => 900,
        PieceKind::King => 2000,
    }
}

/// Most-valuable-victim / least-valuable-attacker capture score.  The
/// victim's value dominates (weight 10 per rank of victim) and a cheaper
/// attacker is preferred (small additive term), so pawn-takes-queen far
/// outranks queen-takes-pawn, and every capture of a real victim scores
/// below `TTMOVE_VALUE`.
pub open spec fn spec_mvv_lva(attacker: PieceKind, victim: PieceKind) -> int {
    10 * (spec_piece_index(victim) + 1) + 5 - spec_piece_index(attacker)
}

pub fn mvv_lva_score(attacker: PieceKind, victim: PieceKind) -> (r: i64)
    ensures
        r == spec_mvv_lva(attacker, victim),
        10 <= r <= 65,
{
    let a = piece_index(attacker);
    let v = piece_index(victim);
    10 * (v as i64 + 1) + 5 - a as i64
}

/// A score the search may handle: small enough that negating it is safe.
pub open spec fn score_ok(s: i64) -> bool {
    -SCORE_BOUND <= s <= SCORE_BOUND
}

/// Lower-case letter of a piece index (pawn 'p' .. king 'k').
pub open spec fn spec_promo_letter(i: int) -> u8 {
    if i == 0 {
        112u8
    } else if i == 1 {
        110u8
    } else if i == 2 {
        98u8
    } else if i == 3 {
        114u8
    } else if i == 4 {
        113u8
    } else {
        107u8
    }
}

/// Coordinate text of a square index: file letter then rank digit.
pub open spec fn spec_sq_text(sq: u8) -> Seq<u8> {
    seq![(97 + sq % 8) as u8, (49 + sq / 8) as u8]
}

/// Coordinate text of a move: origin square, destination square, and the
/// promotion piece letter when the move promotes.
pub open spec fn spec_mv_text(mv: Mv) -> Seq<u8> {
    if mv.promo <= 5 {
        spec_sq_text(mv.from) + spec_sq_text(mv.to) + seq![spec_promo_letter(mv.promo as int)]
    } else {
        spec_sq_text(mv.from) + spec_sq_text(mv.to)
    }
}

/// Render a move in coordinate notation as ASCII bytes.
pub fn mv_text(mv: &Mv) -> (r: Vec<u8>)
    requires
        mv.wf(),
    ensures
        r@ == spec_mv_text(*mv),
{
    let mut out: Vec<u8> = Vec::new();
    out.push(97 + mv.from % 8);
    out.push(49 + mv.from / 8);
    out.push(97 + mv.to % 8);
    out.push(49 + mv.to / 8);
    if mv.promo <= 5 {
        let letter: u8 = if mv.promo == 0 {
            112
        } else if mv.promo == 1 {
            110
        } else if mv.promo == 2 {
            98
        } else if mv.promo == 3 {
            114
        } else if mv.promo == 4 {
            113
        } else {
            107
        };
        out.push(letter);
        proof {
            assert(out@ =~= spec_mv_text(*mv));
        }
    } else {
        proof {
            assert(out@ =~= spec_mv_text(*mv));
        }
    }
    out
}

} // verus!
