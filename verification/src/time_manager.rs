//! The clock of a fight.
use crate::fixed::clamp;
use crate::fixed::sat_add;
use crate::fixed::Fixed;
use vstd::prelude::*;

verus! {

/// The time of a fight, in seconds. The engine reads it and never
/// advances it: whoever drives the fight advances it between abilities.
#[derive(Clone, Copy, Debug)]
pub struct CombatClock {
    pub now: Fixed,
}

impl CombatClock {
    /// A clock at time zero.
    pub fn new() -> (r: CombatClock)
        ensures
            r.now == 0,
    {
        CombatClock { now: 0 }
    }

    /// The time now.
    pub fn time(&self) -> (r: Fixed)
        ensures
            r == self.now,
    {
        self.now
    }

    /// Lets `seconds` pass.
    pub fn advance(&mut self, seconds: Fixed)
        ensures
            final(self).now == clamp(old(self).now + seconds),
    {
        self.now = sat_add(self.now, seconds);
    }
}

} // verus!
