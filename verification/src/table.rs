//! One decision table: decision codes keyed by the dealer's up-card and a
//! second value, which is a hand's total or the rank of a pair.

use std::collections::HashMap;
use vstd::prelude::*;

use crate::decision::is_decision_code;

verus! {

broadcast use vstd::std_specs::hash::group_hash_axioms;

/// A mapping from `(dealer up-card, second value)` to a decision code.
///
/// The cells live in a hash map under one integer per key; contracts speak
/// of the table through its view, a map keyed by the pair.
pub struct DecisionTable {
    cells: HashMap<u16, char>,
}

/// The integer under which the cell for `(dealer, value)` is stored. Every
/// pair has its own slot and every slot belongs to one pair.
spec fn slot(dealer: u8, value: u8) -> u16 {
    (dealer as int * 256 + value as int) as u16
}

impl View for DecisionTable {
    type V = Map<(u8, u8), char>;

    closed spec fn view(&self) -> Map<(u8, u8), char> {
        Map::new(
            |k: (u8, u8)| self.cells@.contains_key(slot(k.0, k.1)),
            |k: (u8, u8)| self.cells@[slot(k.0, k.1)],
        )
    }
}

impl DecisionTable {
    /// Every stored value is a decision code.
    pub open spec fn wf(&self) -> bool {
        forall|k: (u8, u8)| #[trigger] self@.contains_key(k) ==> is_decision_code(self@[k])
    }

    /// The table without any cell.
    pub fn new() -> (table: DecisionTable)
        ensures
            table@ == Map::<(u8, u8), char>::empty(),
            table.wf(),
    {
        let table = DecisionTable { cells: HashMap::new() };
        assert(table@ =~= Map::<(u8, u8), char>::empty());
        table
    }

    /// Sets the cell for `(dealer, value)`, replacing what was there.
    pub fn insert(&mut self, dealer: u8, value: u8, decision: char)
        requires
            old(self).wf(),
            is_decision_code(decision),
        ensures
            final(self)@ == old(self)@.insert((dealer, value), decision),
            final(self).wf(),
    {
        let key: u16 = dealer as u16 * 256 + value as u16;
        self.cells.insert(key, decision);
        proof {
            assert forall|k: (u8, u8)| slot(k.0, k.1) == key implies k == (dealer, value) by {}
            assert(final(self)@ =~= old(self)@.insert((dealer, value), decision));
        }
    }

    /// The decision stored for `(dealer, value)`, if there is one.
    pub fn get(&self, dealer: u8, value: u8) -> (found: Option<char>)
        ensures
            found == (if self@.contains_key((dealer, value)) {
                Some(self@[(dealer, value)])
            } else {
                None
            }),
    {
        let key: u16 = dealer as u16 * 256 + value as u16;
        match self.cells.get(&key) {
            Some(decision) => Some(*decision),
            None => None,
        }
    }
}

} // verus!
