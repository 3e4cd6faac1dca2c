use vstd::prelude::*;
use crate::types::{Mv, spec_default_move, default_move, MAX_DEPTH};

verus! {

/// Per-depth memory of quiet moves that caused beta cutoffs.  Each depth
/// (0 .. MAX_DEPTH) holds two moves, most recent first; unused slots hold
/// the null sentinel.  Depths at or beyond MAX_DEPTH are treated as a
/// bounds-checked no-op arena: reads return null slots and writes are
/// dropped.
#[derive(Clone, Debug)]
pub struct KillerMoves {
    pub moves: Vec<(Mv, Mv)>,
}

impl KillerMoves {
    /// The arena always spans exactly MAX_DEPTH depth slots.
    pub open spec fn wf(self) -> bool {
        self.moves@.len() == MAX_DEPTH
    }

    /// The pair of killer slots recorded at `depth` (null pair out of range).
    pub open spec fn slots(self, depth: int) -> (Mv, Mv) {
        if 0 <= depth < self.moves@.len() {
            self.moves@[depth]
        } else {
            (spec_default_move(), spec_default_move())
        }
    }

    /// A fresh table: every slot of every depth holds the null sentinel.
    pub fn new() -> (r: KillerMoves)
        ensures
            r.wf(),
            forall|d: int| r.slots(d) == (spec_default_move(), spec_default_move()),
    {
        let nul = default_move();
        let mut moves: Vec<(Mv, Mv)> = Vec::new();
        let mut i: usize = 0;
        while i < MAX_DEPTH
            invariant
                i <= MAX_DEPTH,
                nul == spec_default_move(),
                moves@.len() == i,
                forall|d: int| 0 <= d < i ==> #[trigger] moves@[d] == (spec_default_move(), spec_default_move()),
            decreases MAX_DEPTH - i,
        {
            moves.push((nul, nul));
            i = i + 1;
        }
        KillerMoves { moves }
    }

    /// Record `mv` as the most recent killer at `depth`: a re-insert of the
    /// current slot-0 move is a no-op, otherwise slot 0 shifts into slot 1
    /// (discarding the previous slot 1) and `mv` takes slot 0.  Out-of-range
    /// depths change nothing.
    pub fn set_killer_move(&mut self, depth: usize, mv: Mv)
        requires
            old(self).wf(),
        ensures
            final(self).wf(),
            depth >= MAX_DEPTH ==> *final(self) == *old(self),
            depth < MAX_DEPTH && old(self).slots(depth as int).0 == mv ==> *final(self) == *old(self),
            depth < MAX_DEPTH && old(self).slots(depth as int).0 != mv ==> {
                &&& final(self).slots(depth as int) == (mv, old(self).slots(depth as int).0)
                &&& forall|d: int| d != depth ==> final(self).slots(d) == old(self).slots(d)
            },
    {
        if depth < MAX_DEPTH {
            let cur = self.moves[depth];
            if cur.0 == mv {
                return;
            }
            self.moves.set(depth, (mv, cur.0));
            proof {
                assert(self.moves@ =~= old(self).moves@.update(depth as int, (mv, cur.0)));
            }
        }
    }

    /// Read the two killer slots recorded at `depth`, most recent first.
    pub fn get_killer_moves(&self, depth: usize) -> (r: (Mv, Mv))
        requires
            self.wf(),
        ensures
            r == self.slots(depth as int),
    {
        if depth < MAX_DEPTH {
            self.moves[depth]
        } else {
            (default_move(), default_move())
        }
    }
}

} // verus!
