use vstd::prelude::*;
use std::collections::HashMap;
use crate::types::Mv;

verus! {

broadcast use vstd::std_specs::hash::group_hash_axioms;

/// One cached search result: (score, alpha used, beta used, best move).
/// An entry is an opaque snapshot of one prior call's window, usable only
/// when probed with exactly the same window.
pub type TtEntry = (i64, i64, i64, Mv);

/// Position-hash keyed cache of search results.  `insert` overwrites
/// unconditionally; entries live until the table is replaced on a new game.
#[derive(Clone, Debug)]
pub struct TranspositionTable {
    pub table: HashMap<u64, TtEntry>,
}

impl TranspositionTable {
    /// Mathematical contents of the table.
    pub open spec fn view(self) -> Map<u64, TtEntry> {
        self.table@
    }

    /// An empty table.
    pub fn new() -> (r: TranspositionTable)
        ensures
            r@ == Map::<u64, TtEntry>::empty(),
    {
        TranspositionTable { table: HashMap::new() }
    }

    /// Look up the entry cached for `key`: `Some` exactly when one is stored.
    pub fn get(&self, key: u64) -> (r: Option<TtEntry>)
        ensures
            match r {
                Some(e) => self@.contains_key(key) && e == self@[key],
                None => !self@.contains_key(key),
            },
    {
        match self.table.get(&key) {
            Some(e) => Some(*e),
            None => None,
        }
    }

    /// Cache `value` for `key`, overwriting any previous entry.
    pub fn insert(&mut self, key: u64, value: TtEntry)
        ensures
            final(self)@ == old(self)@.insert(key, value),
    {
        self.table.insert(key, value);
    }
}

/// The usable-hit policy: a cached entry is a hit for the current call
/// exactly when its recorded bounds equal the caller's window, and the hit
/// is that entry's (score, move); a missing or window-mismatched entry is
/// never returned.
pub fn tt_probe_hit(entry: Option<TtEntry>, alpha: i64, beta: i64) -> (r: Option<(i64, Mv)>)
    ensures
        r is Some <==> (entry is Some && (entry->Some_0).1 == alpha && (entry->Some_0).2 == beta),
        r is Some ==> r->Some_0 == ((entry->Some_0).0, (entry->Some_0).3),
{
    match entry {
        Some(e) => {
            if e.1 == alpha && e.2 == beta {
                Some((e.0, e.3))
            } else {
                None
            }
        },
        None => None,
    }
}

} // verus!
