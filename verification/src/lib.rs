//! A chess engine core: iterative-deepening negamax with alpha-beta
//! pruning and quiescence search, killer-move and MVV-LVA move ordering,
//! an exact-window transposition table, and a side-to-move-relative
//! positional evaluator.  The rules of the game (move generation,
//! legality, terminal detection, hashing) come from the `cozy_chess`
//! crate through a small trusted boundary in `board`; everything else is
//! verified.

pub mod types;
pub mod killer;
pub mod tt;
pub mod minimax;
pub mod board;
pub mod ordering;
pub mod eval;
pub mod search;
pub mod ucisettings;
