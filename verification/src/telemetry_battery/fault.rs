//! Edge-triggered latch, used so that a warning or error that is still true is not sent again
//! every time it is checked: it fires the first time the condition becomes true, and re-arms
//! once the condition clears.
use vstd::prelude::*;

verus! {

pub struct Latch {
    active: bool,
}

impl Latch {
    /// Whether the monitored condition was true at the last update.
    pub closed spec fn spec_active(&self) -> bool {
        self.active
    }

    /// A latch whose condition has not been seen true.
    pub fn new() -> (r: Self)
        ensures
            !r.spec_active(),
    {
        Self { active: false }
    }

    /// Updates the latch with the current state of the monitored condition. Returns `true`
    /// exactly when `condition` goes from `false` to `true`.
    pub fn rising_edge(&mut self, condition: bool) -> (triggered: bool)
        ensures
            triggered == fires(old(self).spec_active(), condition),
            final(self).spec_active() == condition,
    {
        let triggered = condition && !self.active;
        self.active = condition;
        triggered
    }
}

/// Whether an update with `condition` fires a latch in state `active`.
pub open spec fn fires(active: bool, condition: bool) -> bool {
    condition && !active
}

/// Two updates in a row: whatever the latch held before, the second update fires exactly when
/// its condition is true and the first one's was false. So a condition that stays true fires
/// once, and fires again only after it has been seen false.
pub proof fn lemma_latch_two_updates(l: Latch, c1: bool, c2: bool)
    ensures
        fires(c1, c2) == (c2 && !c1),
        fires(l.spec_active(), c1) ==> !fires(c1, c1),
{
}

} // verus!
