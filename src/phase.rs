//! The two phases that a simulating thread alternates between.
use vstd::prelude::*;

verus! {

/// Which side of the shared lock a simulating thread is on.
#[derive(Clone, Copy, Debug, PartialEq, Eq, Structural)]
pub enum Phase {
    /// The thread holds the lock while it works.
    Holding,
    /// The thread works without the lock.
    Released,
}

/// The phase after `n` bursts: a run starts in `Holding` and alternates
/// strictly after every burst.
pub open spec fn phase_after(n: nat) -> Phase {
    if n % 2 == 0 {
        Phase::Holding
    } else {
        Phase::Released
    }
}

impl Phase {
    /// The phase in which every run starts.
    pub fn initial() -> (r: Phase)
        ensures
            r == phase_after(0),
    {
        Phase::Holding
    }

    /// The phase that follows this one.
    pub fn next(self) -> (r: Phase)
        ensures
            r != self,
            self == Phase::Holding ==> r == Phase::Released,
            self == Phase::Released ==> r == Phase::Holding,
    {
        match self {
            Phase::Holding => Phase::Released,
            Phase::Released => Phase::Holding,
        }
    }

    /// Whether a burst in this phase runs with the shared lock held.
    pub fn holds_lock(self) -> (r: bool)
        ensures
            r == (self == Phase::Holding),
    {
        match self {
            Phase::Holding => true,
            Phase::Released => false,
        }
    }
}

/// Taking one more burst moves the phase on by one step: the phase after
/// `n + 1` bursts is the one that follows the phase after `n` bursts, and
/// differs from it.
pub proof fn lemma_phase_alternates(n: nat)
    ensures
        phase_after(n + 1) != phase_after(n),
        phase_after(n + 2) == phase_after(n),
{
}

} // verus!
