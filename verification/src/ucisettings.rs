use vstd::prelude::*;
use crate::types::{Mv, score_ok, spec_default_move};
use crate::killer::KillerMoves;
use crate::tt::{TranspositionTable, TtEntry};
use crate::search::Search;
use crate::board::{start_position, parse_fen, spec_fen_ok, play_move};

verus! {

/// One engine session: the current position, the configured limits, the
/// cooperative stop/quit flags and the search state.  Commands of the
/// control protocol are handled one at a time by the methods below.
pub struct UciSettings {
    pub depth: u64,
    pub nodes: u64,
    pub move_time: u128,
    pub board: cozy_chess::Board,
    pub stop: bool,
    pub quit: bool,
    pub search: Search,
}

impl UciSettings {
    pub open spec fn wf(self) -> bool {
        self.search.wf()
    }

    /// A fresh session at the starting position with the default limits
    /// and a fresh search state: one counted node, empty transposition
    /// table, every killer slot null.
    pub fn new() -> (r: UciSettings)
        ensures
            r.wf(),
            r.depth == 10,
            r.nodes == 500000,
            r.move_time == 3000,
            !r.stop,
            !r.quit,
            r.search.curr_score == 0,
            r.search.nodes == 1,
            r.search.depth == 0,
            r.search.max_depth == 100,
            r.search.max_nodes == u64::MAX,
            r.search.pv@.len() == 0,
            r.search.tt@ == Map::<u64, TtEntry>::empty(),
            forall|d: int|
                r.search.killer.slots(d) == (spec_default_move(), spec_default_move()),
    {
        UciSettings {
            depth: 10,
            nodes: 500000,
            move_time: 3000,
            board: start_position(),
            stop: false,
            quit: false,
            search: Search::new(),
        }
    }

    /// Set the maximum search depth.
    pub fn handle_depth(&mut self, n: u64)
        ensures
            final(self).depth == n,
            *final(self) == (UciSettings { depth: n, ..*old(self) }),
    {
        self.depth = n;
    }

    /// Start a new game: reset the position to the starting position and
    /// clear the killer and transposition tables, whose entries live only
    /// for one game.
    pub fn new_game(&mut self)
        requires
            old(self).wf(),
        ensures
            final(self).wf(),
            final(self).search.killer.wf(),
            forall|d: int|
                final(self).search.killer.slots(d) == (spec_default_move(), spec_default_move()),
            final(self).search.tt@ == Map::<u64, (i64, i64, i64, Mv)>::empty(),
            final(self).depth == old(self).depth,
            final(self).stop == old(self).stop,
            final(self).quit == old(self).quit,
    {
        self.board = start_position();
        self.search.killer = KillerMoves::new();
        self.search.tt = TranspositionTable::new();
    }

    /// Set the position from the protocol's position command: either the
    /// starting position (a new game), or a notation string followed by a
    /// list of moves to apply.  A missing or malformed notation string or
    /// an illegal move is reported as failure; in the notation form the
    /// session is then left unchanged, while in the starting-position form
    /// the tables have already been reset by the time a bad move is found.
    /// With no moves to apply, the starting-position form always succeeds,
    /// and the notation form succeeds exactly when the notation parses.
    pub fn handle_uci_position(&mut self, startpos: bool, fen: Option<&str>, moves: &Vec<Mv>) -> (r:
        bool)
        requires
            old(self).wf(),
            forall|i: int| 0 <= i < moves@.len() ==> (#[trigger] moves@[i]).wf(),
        ensures
            final(self).wf(),
            !r && !startpos ==> *final(self) == *old(self),
            !startpos && fen is None ==> !r,
            !startpos && fen is Some && !spec_fen_ok(fen->Some_0@) ==> !r,
            !startpos && fen is Some && spec_fen_ok(fen->Some_0@) && moves@.len() == 0 ==> r,
            startpos ==> final(self).search.tt@ == Map::<u64, TtEntry>::empty(),
            startpos ==> forall|d: int|
                final(self).search.killer.slots(d) == (spec_default_move(), spec_default_move()),
            startpos && moves@.len() == 0 ==> r,
    {
        let mut bd: cozy_chess::Board;
        if startpos {
            self.new_game();
            bd = start_position();
        } else {
            let fen_str = match fen {
                Some(f) => f,
                None => {
                    return false;
                },
            };
            bd = match parse_fen(fen_str) {
                Some(b) => b,
                None => {
                    return false;
                },
            };
        }
        let mut i: usize = 0;
        while i < moves.len()
            invariant
                i <= moves@.len(),
                self.wf(),
                !startpos ==> *self == *old(self),
                startpos ==> self.search.tt@ == Map::<u64, TtEntry>::empty(),
                startpos ==> forall|d: int|
                    self.search.killer.slots(d) == (spec_default_move(), spec_default_move()),
                old(self).wf(),
                forall|n: int| 0 <= n < moves@.len() ==> (#[trigger] moves@[n]).wf(),
            decreases moves@.len() - i,
        {
            match play_move(&bd, &moves[i]) {
                Some(nb) => {
                    bd = nb;
                },
                None => {
                    return false;
                },
            }
            i = i + 1;
        }
        self.board = bd;
        true
    }

    /// Toggle the cooperative stop flag.
    pub fn handle_stop(&mut self)
        ensures
            *final(self) == (UciSettings { stop: !old(self).stop, ..*old(self) }),
    {
        self.stop = !self.stop;
    }

    /// Raise the quit flag; the protocol loop exits on it.
    pub fn handle_quit(&mut self)
        ensures
            *final(self) == (UciSettings { quit: true, ..*old(self) }),
    {
        self.quit = true;
    }

    /// Run the search on the current position under the configured depth
    /// limit, with no node budget and no deadline, watching the session's
    /// stop flag, and return its (score, best move).
    pub fn handle_go_(&mut self) -> (r: (i64, Mv))
        requires
            old(self).wf(),
        ensures
            final(self).wf(),
            score_ok(r.0),
            r.1.wf(),
            final(self).search.max_depth == old(self).depth,
            final(self).search.max_nodes == u64::MAX,
            final(self).search.end_time == u128::MAX,
            old(self).stop ==> r.1 == spec_default_move(),
    {
        let depth = self.depth;
        self.search.iter_deepning(&self.board, Some(depth), None, None, &self.stop)
    }
}

} // verus!
