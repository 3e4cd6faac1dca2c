use redcrab::types::{Mv, PieceKind, default_move, get_piece_value, mvv_lva_score, mv_text,
    INFINITY, KILLER_VALUE, TTMOVE_VALUE};
use redcrab::killer::KillerMoves;
use redcrab::tt::{TranspositionTable, tt_probe_hit};
use redcrab::ordering::{MoveInfo, move_score, order_scored};

fn mv(from: u8, to: u8) -> Mv {
    Mv { from, to, promo: 6 }
}

#[test]
fn killer_reinsert_is_noop() {
    let mut km = KillerMoves::new();
    let a = mv(1, 2);
    km.set_killer_move(3, a);
    let before = km.get_killer_moves(3);
    km.set_killer_move(3, a);
    assert_eq!(km.get_killer_moves(3), before);
    assert_eq!(km.get_killer_moves(3), (a, default_move()));
}

#[test]
fn killer_shifts_slots() {
    let mut km = KillerMoves::new();
    let a = mv(1, 2);
    let b = mv(3, 4);
    km.set_killer_move(3, a);
    km.set_killer_move(3, b);
    assert_eq!(km.get_killer_moves(3), (b, a));
}

#[test]
fn killer_other_depths_untouched() {
    let mut km = KillerMoves::new();
    km.set_killer_move(5, mv(1, 2));
    assert_eq!(km.get_killer_moves(4), (default_move(), default_move()));
    assert_eq!(km.get_killer_moves(6), (default_move(), default_move()));
}

#[test]
fn killer_out_of_range_is_noop() {
    let mut km = KillerMoves::new();
    km.set_killer_move(1000, mv(1, 2));
    assert_eq!(km.get_killer_moves(1000), (default_move(), default_move()));
}

#[test]
fn tt_insert_then_get() {
    let mut tt = TranspositionTable::new();
    let m1 = mv(4, 5);
    tt.insert(42, (10, -5, 5, m1));
    assert_eq!(tt.get(42), Some((10, -5, 5, m1)));
    assert_eq!(tt.get(7), None);
}

#[test]
fn cache_hit_requires_exact_window() {
    let e = Some((10i64, -5i64, 5i64, mv(4, 5)));
    assert_eq!(tt_probe_hit(e, -5, 5), Some((10, mv(4, 5))));
    assert_eq!(tt_probe_hit(e, -5, 6), None);
    assert_eq!(tt_probe_hit(e, -4, 5), None);
    assert_eq!(tt_probe_hit(None, -5, 5), None);
}

#[test]
fn tt_insert_overwrites() {
    let mut tt = TranspositionTable::new();
    let m1 = mv(4, 5);
    let m2 = mv(6, 7);
    tt.insert(42, (10, -5, 5, m1));
    tt.insert(42, (-3, 0, 1, m2));
    assert_eq!(tt.get(42), Some((-3, 0, 1, m2)));
}

#[test]
fn capture_scores_are_victim_dominant() {
    let pxq = mvv_lva_score(PieceKind::Pawn, PieceKind::Queen);
    let qxp = mvv_lva_score(PieceKind::Queen, PieceKind::Pawn);
    assert_eq!(pxq, 55);
    assert_eq!(qxp, 11);
    assert!(pxq > qxp);
    assert!(pxq < TTMOVE_VALUE);
}

#[test]
fn move_score_rules() {
    let nul = default_move();
    let quiet = mv(8, 16);
    // transposition move outranks everything else
    assert_eq!(move_score(quiet, Some(PieceKind::Pawn), None, Some(quiet), nul, nul), 60);
    // capture scored by MVV-LVA
    assert_eq!(
        move_score(mv(12, 28), Some(PieceKind::Pawn), Some(PieceKind::Queen), None, nul, nul),
        55,
    );
    // killer slots give the fixed bonus
    assert_eq!(move_score(quiet, Some(PieceKind::Pawn), None, None, quiet, nul), KILLER_VALUE);
    assert_eq!(move_score(quiet, Some(PieceKind::Pawn), None, None, nul, quiet), KILLER_VALUE);
    // promotion is worth a tenth of the promoted piece
    let promo = Mv { from: 48, to: 56, promo: 4 };
    assert_eq!(move_score(promo, Some(PieceKind::Pawn), None, None, nul, nul), 90);
    assert_eq!(get_piece_value(PieceKind::Queen) / 10, 90);
    // plain quiet move
    assert_eq!(move_score(quiet, Some(PieceKind::Knight), None, None, nul, nul), 0);
}

#[test]
fn ordering_puts_tt_move_first_then_capture_then_quiets() {
    let nul = default_move();
    let q1 = mv(8, 16);
    let cap = mv(12, 28);
    let q2 = mv(1, 18);
    let q3 = mv(6, 21);
    let infos = vec![
        MoveInfo { mv: q1, attacker: Some(PieceKind::Pawn), victim: None },
        MoveInfo { mv: cap, attacker: Some(PieceKind::Pawn), victim: Some(PieceKind::Queen) },
        MoveInfo { mv: q2, attacker: Some(PieceKind::Knight), victim: None },
        MoveInfo { mv: q3, attacker: Some(PieceKind::Knight), victim: None },
    ];
    let ordered = order_scored(&infos, Some(q2), nul, nul);
    assert_eq!(ordered, vec![(q2, 60), (cap, 55), (q1, 0), (q3, 0)]);
}

#[test]
fn ordering_keeps_equal_scores_in_generation_order() {
    let nul = default_move();
    let a = mv(8, 16);
    let b = mv(9, 17);
    let c = mv(10, 18);
    let infos = vec![
        MoveInfo { mv: a, attacker: Some(PieceKind::Pawn), victim: None },
        MoveInfo { mv: b, attacker: Some(PieceKind::Pawn), victim: None },
        MoveInfo { mv: c, attacker: Some(PieceKind::Pawn), victim: None },
    ];
    let ordered = order_scored(&infos, None, nul, nul);
    assert_eq!(ordered, vec![(a, 0), (b, 0), (c, 0)]);
}

#[test]
fn move_text_renders_coordinates() {
    assert_eq!(mv_text(&mv(12, 28)), b"e2e4".to_vec());
    assert_eq!(mv_text(&Mv { from: 48, to: 56, promo: 4 }), b"a7a8q".to_vec());
    assert_eq!(mv_text(&mv(0, 63)), b"a1h8".to_vec());
}

#[test]
fn infinity_is_the_mate_score() {
    assert_eq!(INFINITY, 9999999);
}
