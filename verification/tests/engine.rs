use std::str::FromStr;

use redcrab::types::{Mv, GStatus, default_move, INFINITY};
use redcrab::eval::Eval;
use redcrab::search::{Search, leaf_score};
use redcrab::ucisettings::UciSettings;

fn mv(from: u8, to: u8) -> Mv {
    Mv { from, to, promo: 6 }
}

fn board_from(fen: &str) -> cozy_chess::Board {
    cozy_chess::Board::from_str(fen).unwrap()
}

fn to_cozy(m: &Mv) -> cozy_chess::Move {
    cozy_chess::Move {
        from: cozy_chess::Square::try_index(m.from as usize).unwrap(),
        to: cozy_chess::Square::try_index(m.to as usize).unwrap(),
        promotion: cozy_chess::Piece::try_index(m.promo as usize),
    }
}

#[test]
fn leaf_scores_mate_draw_and_evaluation() {
    assert_eq!(leaf_score(GStatus::Won, 500), -INFINITY);
    assert_eq!(leaf_score(GStatus::Won, -500), -INFINITY);
    assert_eq!(leaf_score(GStatus::Drawn, 123), 0);
    assert_eq!(leaf_score(GStatus::Ongoing, 77), 77);
}

// White has been mated by the classic two-move trap; the mover sees the
// mate score regardless of the window.
const MATED_FEN: &str = "rnb1kbnr/pppp1ppp/8/4p3/6Pq/5P2/PPPPP2P/RNBQKBNR w KQkq - 1 3";

#[test]
fn negamax_scores_checkmate_for_the_mover() {
    let board = board_from(MATED_FEN);
    assert_eq!(board.status(), cozy_chess::GameStatus::Won);
    let mut s = Search::new();
    let start = std::time::Instant::now();
    let (score, _mv) = s.negamax(&board, 3, -INFINITY, INFINITY, &start, &false);
    assert_eq!(score, -INFINITY);
    // and with a different window
    let mut s2 = Search::new();
    let (score2, _) = s2.negamax(&board, 3, -17, 23, &start, &false);
    assert_eq!(score2, -INFINITY);
}

#[test]
fn quisearch_scores_checkmate_for_the_mover() {
    let board = board_from(MATED_FEN);
    let mut s = Search::new();
    let start = std::time::Instant::now();
    let score = s.quisearch(&board, 3, -INFINITY, INFINITY, &start, &false);
    assert_eq!(score, -INFINITY);
}

#[test]
fn stalemate_scores_zero() {
    // Black to move, not in check, no legal moves.
    let board = board_from("7k/5Q2/6K1/8/8/8/8/8 b - - 0 1");
    assert_eq!(board.status(), cozy_chess::GameStatus::Drawn);
    let mut s = Search::new();
    let start = std::time::Instant::now();
    let (score, _mv) = s.negamax(&board, 3, -INFINITY, INFINITY, &start, &false);
    assert_eq!(score, 0);
}

#[test]
fn fifty_move_rule_draw_scores_zero() {
    // halfmove clock at 100: drawn by rule
    let board = board_from("k7/8/8/8/8/8/8/K6R w - - 100 80");
    assert_eq!(board.status(), cozy_chess::GameStatus::Drawn);
    let mut s = Search::new();
    let start = std::time::Instant::now();
    let (score, _mv) = s.negamax(&board, 3, -INFINITY, INFINITY, &start, &false);
    assert_eq!(score, 0);
}

#[test]
fn quiescence_stands_pat_against_beta() {
    // the static evaluation (0) already meets a low beta, so the
    // stand-pat cutoff returns beta at once
    let mut s = Search::new();
    let start = std::time::Instant::now();
    let score = s.quisearch(&cozy_chess::Board::default(), 3, -200, -100, &start, &false);
    assert_eq!(score, -100);
}

// White rook on d1 can win the black queen on d5; everything else is quiet.
const HANGING_QUEEN_FEN: &str = "k7/8/8/3q4/8/8/8/K2R4 w - - 0 1";

#[test]
fn quiescence_searches_captures_only() {
    // standing pat would give the material balance (-400); searching the
    // one capture (and nothing else, in generation order) wins the queen
    let board = board_from(HANGING_QUEEN_FEN);
    let mut s = Search::new();
    s.end_time = u128::MAX;
    let start = std::time::Instant::now();
    let score = s.quisearch(&board, 2, -INFINITY, INFINITY, &start, &false);
    assert_eq!(score, 500);
}

#[test]
fn negamax_uses_cache_only_on_exact_window() {
    let board = cozy_chess::Board::default();
    let m = mv(1, 18);
    let start = std::time::Instant::now();
    // exactly matching window: the cached pair comes straight back
    let mut s = Search::new();
    s.end_time = u128::MAX;
    s.tt.insert(board.hash(), (4242, -50, 60, m));
    assert_eq!(s.negamax(&board, 1, -50, 60, &start, &false), (4242, m));
    // mismatched window: the entry is ignored and the search runs
    let mut s2 = Search::new();
    s2.end_time = u128::MAX;
    s2.tt.insert(board.hash(), (4242, -50, 61, m));
    let (score, _best) = s2.negamax(&board, 1, -50, 60, &start, &false);
    assert_eq!(score, 0);
}

#[test]
fn quiescence_ignores_the_cache() {
    // quiescence has no transposition interaction: a cached entry for this
    // very position and window is not consulted
    let board = cozy_chess::Board::default();
    let mut s = Search::new();
    s.end_time = u128::MAX;
    s.tt.insert(board.hash(), (-123, -INFINITY, INFINITY, mv(1, 2)));
    let start = std::time::Instant::now();
    let score = s.quisearch(&board, 3, -INFINITY, INFINITY, &start, &false);
    assert_eq!(score, 0);
}

#[test]
fn negamax_rescoring_by_quiescence_below_alpha() {
    // over a window whose alpha no child reaches, the mid-loop quiescence
    // re-score replaces the best score with the parent's capture search,
    // clamped at alpha; the best move stays the capture found first
    let board = board_from(HANGING_QUEEN_FEN);
    let mut s = Search::new();
    s.end_time = u128::MAX;
    let start = std::time::Instant::now();
    let (score, best) = s.negamax(&board, 1, 600, 700, &start, &false);
    assert_eq!(score, 600);
    assert_eq!(best, mv(3, 35)); // d1d5, the queen capture
}

#[test]
fn evaluation_is_material_for_the_side_to_move() {
    let eval = Eval::new();
    assert_eq!(eval.evaluate(&cozy_chess::Board::default()), 0);
    assert_eq!(eval.evaluate(&board_from("k7/8/8/8/8/8/8/KQ6 w - - 0 1")), 900);
    assert_eq!(eval.evaluate(&board_from("k7/8/8/8/8/8/8/KQ6 b - - 0 1")), -900);
    assert_eq!(eval.evaluate(&board_from("k6r/8/8/8/8/8/8/KQ6 w - - 0 1")), 400);
}

#[test]
fn go_at_depth_one_returns_a_legal_move_and_finite_score() {
    let mut uci = UciSettings::new();
    uci.handle_depth(1);
    let (score, best) = uci.handle_go_();
    assert_ne!(best, default_move());
    assert!(score.abs() < INFINITY);
    let mut board = cozy_chess::Board::default();
    assert!(board.try_play(to_cozy(&best)).is_ok());
}

#[test]
fn go_finds_mate_in_one() {
    let mut uci = UciSettings::new();
    let ok = uci.handle_uci_position(false, Some("6k1/5ppp/8/8/8/8/5PPP/R5K1 w - - 0 1"), &vec![]);
    assert!(ok);
    uci.handle_depth(3);
    let (score, best) = uci.handle_go_();
    assert_eq!(best, mv(0, 56)); // a1a8, the mating rook lift
    assert_eq!(score, INFINITY);
}

#[test]
fn position_command_rejects_bad_input_and_keeps_the_session() {
    let mut uci = UciSettings::new();
    assert!(!uci.handle_uci_position(false, Some("not a position"), &vec![]));
    assert!(!uci.handle_uci_position(false, None, &vec![]));
    // illegal move after a valid position
    assert!(!uci.handle_uci_position(false, Some("6k1/5ppp/8/8/8/8/5PPP/R5K1 w - - 0 1"),
        &vec![mv(0, 9)]));
}

#[test]
fn position_command_applies_moves() {
    let mut uci = UciSettings::new();
    // startpos plus 1. e4
    assert!(uci.handle_uci_position(true, None, &vec![mv(12, 28)]));
    let mut expected = cozy_chess::Board::default();
    expected.play("e2e4".parse().unwrap());
    assert_eq!(uci.board.hash(), expected.hash());
}

#[test]
fn stop_and_quit_flags() {
    let mut uci = UciSettings::new();
    assert!(!uci.stop);
    uci.handle_stop();
    assert!(uci.stop);
    uci.handle_stop();
    assert!(!uci.stop);
    uci.handle_quit();
    assert!(uci.quit);
}

#[test]
fn new_game_clears_killers_and_cache() {
    let mut uci = UciSettings::new();
    uci.search.killer.set_killer_move(2, mv(1, 2));
    uci.search.tt.insert(9, (1, 2, 3, mv(1, 2)));
    uci.new_game();
    assert_eq!(uci.search.killer.get_killer_moves(2), (default_move(), default_move()));
    assert_eq!(uci.search.tt.get(9), None);
}

#[test]
fn bracketing_window_finds_the_same_move_as_full_window() {
    let board = board_from("6k1/5ppp/8/8/8/8/5PPP/R5K1 w - - 0 1");
    let start = std::time::Instant::now();
    let mut full = Search::new();
    full.end_time = u128::MAX;
    let (fs, fm) = full.negamax(&board, 2, -INFINITY, INFINITY, &start, &false);
    let mut narrow = Search::new();
    narrow.end_time = u128::MAX;
    let (ns, nm) = narrow.negamax(&board, 2, 0, 10000000, &start, &false);
    assert_eq!(fs, INFINITY);
    assert_eq!(ns, INFINITY);
    assert_eq!(fm, nm);
    assert_eq!(fm, mv(0, 56));
}

#[test]
fn search_respects_the_stop_flag() {
    let mut s = Search::new();
    let board = cozy_chess::Board::default();
    let (_, best) = s.iter_deepning(&board, Some(4), None, None, &true);
    // no iteration completes under a raised stop flag
    assert_eq!(best, default_move());
}
