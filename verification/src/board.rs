use vstd::prelude::*;
use std::io::Write;
use crate::types::{Mv, PieceKind, SideColor, GStatus};

verus! {

/// Opaque handle to the rules engine's position state.  The rules engine
/// owns move generation, legality, terminal detection and hashing; this
/// crate only observes it through the trusted functions below.
#[verifier::external_type_specification]
#[verifier::external_body]
pub struct ExBoard(cozy_chess::Board);

/// Opaque move representation of the rules engine.
#[verifier::external_type_specification]
#[verifier::external_body]
pub struct ExMove(cozy_chess::Move);

/// Opaque piece representation of the rules engine.
#[verifier::external_type_specification]
#[verifier::external_body]
pub struct ExPiece(cozy_chess::Piece);

/// Monotonic clock instant used for the search deadline.
#[verifier::external_type_specification]
#[verifier::external_body]
pub struct ExInstant(std::time::Instant);

/// Relies on cozy_chess::Piece being one of exactly six piece kinds;
/// converts it variant by variant.
#[verifier::external_body]
pub(crate) fn kind_of_piece(p: cozy_chess::Piece) -> (r: PieceKind) {
    match p {
        cozy_chess::Piece::Pawn => PieceKind::Pawn,
        cozy_chess::Piece::Knight => PieceKind::Knight,
        cozy_chess::Piece::Bishop => PieceKind::Bishop,
        cozy_chess::Piece::Rook => PieceKind::Rook,
        cozy_chess::Piece::Queen => PieceKind::Queen,
        cozy_chess::Piece::King => PieceKind::King,
    }
}

/// Relies on cozy_chess::Move carrying two squares (indices 0..64) and an
/// optional promotion piece; the conversion therefore always yields a well
/// formed move.
#[verifier::external_body]
pub(crate) fn mv_of_move(m: cozy_chess::Move) -> (r: Mv)
    ensures
        r.wf(),
{
    let promo: u8 = match m.promotion {
        Some(p) => p as u8,
        None => 6,
    };
    Mv { from: m.from as u8, to: m.to as u8, promo }
}

/// Relies on cozy_chess::Square::try_index and Piece::try_index accepting
/// every index a well formed move can hold.
#[verifier::external_body]
pub(crate) fn move_of_mv(mv: &Mv) -> (r: cozy_chess::Move)
    requires
        mv.wf(),
{
    cozy_chess::Move {
        from: cozy_chess::Square::try_index(mv.from as usize).unwrap(),
        to: cozy_chess::Square::try_index(mv.to as usize).unwrap(),
        promotion: cozy_chess::Piece::try_index(mv.promo as usize),
    }
}

/// Relies on cozy_chess::Board::default returning the standard starting
/// position.
#[verifier::external_body]
pub(crate) fn start_position() -> (r: cozy_chess::Board) {
    cozy_chess::Board::default()
}

/// Whether a notation string parses as a valid position.  Parsing is a
/// pure function of the text, so the outcome depends on the string alone.
pub uninterp spec fn spec_fen_ok(s: Seq<char>) -> bool;

/// Relies on cozy_chess::Board's FromStr, which accepts standard board
/// notation and rejects malformed text without panicking; whether a given
/// string parses depends on the string alone, named `spec_fen_ok`.
#[verifier::external_body]
pub(crate) fn parse_fen(fen: &str) -> (r: Option<cozy_chess::Board>)
    ensures
        r is Some <==> spec_fen_ok(fen@),
{
    fen.parse::<cozy_chess::Board>().ok()
}

/// Relies on cozy_chess::Board::hash returning the position's 64-bit hash.
#[verifier::external_body]
pub(crate) fn board_hash(b: &cozy_chess::Board) -> (r: u64) {
    b.hash()
}

/// Relies on cozy_chess::Board::status: `Won` when the side to move has
/// been checkmated, `Drawn` on stalemate or the 50-move rule, `Ongoing`
/// otherwise; converts it variant by variant.
#[verifier::external_body]
pub(crate) fn board_status(b: &cozy_chess::Board) -> (r: GStatus) {
    match b.status() {
        cozy_chess::GameStatus::Ongoing => GStatus::Ongoing,
        cozy_chess::GameStatus::Won => GStatus::Won,
        cozy_chess::GameStatus::Drawn => GStatus::Drawn,
    }
}

/// Relies on cozy_chess::Board::side_to_move; converts it variant by
/// variant.
#[verifier::external_body]
pub(crate) fn side_to_move(b: &cozy_chess::Board) -> (r: SideColor) {
    match b.side_to_move() {
        cozy_chess::Color::White => SideColor::White,
        cozy_chess::Color::Black => SideColor::Black,
    }
}

/// Relies on cozy_chess::Board::piece_on for the piece occupying a square.
#[verifier::external_body]
pub(crate) fn piece_on(b: &cozy_chess::Board, sq: u8) -> (r: Option<PieceKind>)
    requires
        sq < 64,
{
    match b.piece_on(cozy_chess::Square::try_index(sq as usize).unwrap()) {
        Some(p) => Some(kind_of_piece(p)),
        None => None,
    }
}

/// Relies on cozy_chess::Board::color_on for the side occupying a square.
#[verifier::external_body]
pub(crate) fn color_on(b: &cozy_chess::Board, sq: u8) -> (r: Option<SideColor>)
    requires
        sq < 64,
{
    match b.color_on(cozy_chess::Square::try_index(sq as usize).unwrap()) {
        Some(cozy_chess::Color::White) => Some(SideColor::White),
        Some(cozy_chess::Color::Black) => Some(SideColor::Black),
        None => None,
    }
}

/// Relies on cozy_chess::Board::generate_moves enumerating exactly the
/// legal moves of the side to move; each is converted to a plain move,
/// which is well formed by construction.
#[verifier::external_body]
pub(crate) fn gen_moves(b: &cozy_chess::Board) -> (r: Vec<Mv>)
    ensures
        forall|i: int| 0 <= i < r@.len() ==> (#[trigger] r@[i]).wf(),
{
    let mut out: Vec<Mv> = Vec::new();
    b.generate_moves(|set| {
        for m in set {
            out.push(mv_of_move(m));
        }
        false
    });
    out
}

/// Relies on cozy_chess::Board::try_play: on a legal move it returns the
/// successor position and leaves the given position untouched; on an
/// illegal move it reports failure instead of panicking.
#[verifier::external_body]
pub(crate) fn play_move(b: &cozy_chess::Board, mv: &Mv) -> (r: Option<cozy_chess::Board>)
    requires
        mv.wf(),
{
    let mut next = b.clone();
    match next.try_play(move_of_mv(mv)) {
        Ok(()) => Some(next),
        Err(_) => None,
    }
}

/// Relies on std::time::Instant::now for the search start time.
#[verifier::external_body]
pub(crate) fn now_instant() -> (r: std::time::Instant) {
    std::time::Instant::now()
}

/// Relies on std::time::Instant::elapsed, reported in whole milliseconds.
#[verifier::external_body]
pub(crate) fn elapsed_millis(t: &std::time::Instant) -> (r: u128) {
    t.elapsed().as_millis()
}

/// Relies on std::io::stdout for the per-depth progress report line.
#[verifier::external_body]
pub(crate) fn print_info(depth: u64, score: i64, secs: u128, nodes: u64, nps: u64, pv: &Vec<u8>) {
    let mut out = std::io::stdout();
    let _ = writeln!(
        out,
        "info depth {} score cp {} time {} nodes {} nps {} pv {}",
        depth, score, secs, nodes, nps,
        String::from_utf8_lossy(pv),
    );
}

} // verus!
