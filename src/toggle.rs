//! The decisions of one simulating thread: when to stop, which phase the
//! next burst runs in, and how the work counter grows.
//!
//! A run is modelled by the sequence of burst sizes it has performed. The
//! phase and the work counter are functions of that history alone.
use vstd::prelude::*;

use crate::phase::{phase_after, Phase};
use crate::work::busy_work;

verus! {

/// The total number of work units in a history of bursts.
pub open spec fn total_of(bursts: Seq<u64>) -> nat
    decreases bursts.len(),
{
    if bursts.len() == 0 {
        0
    } else {
        total_of(bursts.drop_last()) + bursts.last() as nat
    }
}

/// The work counter never decreases: one more burst of `tasks` units adds
/// exactly `tasks` to the total.
pub proof fn lemma_total_grows(bursts: Seq<u64>, tasks: u64)
    ensures
        total_of(bursts.push(tasks)) == total_of(bursts) + tasks,
        total_of(bursts) <= total_of(bursts.push(tasks)),
{
    assert(bursts.push(tasks).drop_last() == bursts);
}

/// What a simulating thread does at the top of an iteration.
#[derive(Clone, Copy, Debug, PartialEq, Eq, Structural)]
pub enum Step {
    /// The budget is spent: the run ends with this many work units done.
    Finish { tasks_done: u64 },
    /// Run one more burst in this phase.
    Burst { phase: Phase },
}

/// The per-thread state of a run: its phase and its work counter.
pub struct ToggleState {
    phase: Phase,
    tasks_done: u64,
    bursts: Ghost<Seq<u64>>,
}

impl ToggleState {
    /// The sizes of the bursts performed so far, oldest first.
    pub closed spec fn history(&self) -> Seq<u64> {
        self.bursts@
    }

    /// The phase and the counter agree with the history.
    pub closed spec fn wf(&self) -> bool {
        &&& self.phase == phase_after(self.bursts@.len())
        &&& self.tasks_done == total_of(self.bursts@)
    }

    /// A fresh run: no burst yet, in the `Holding` phase, no work done.
    pub fn new() -> (r: ToggleState)
        ensures
            r.wf(),
            r.history() == Seq::<u64>::empty(),
    {
        ToggleState { phase: Phase::initial(), tasks_done: 0, bursts: Ghost(Seq::empty()) }
    }

    /// The phase of the next burst.
    pub fn phase(&self) -> (r: Phase)
        requires
            self.wf(),
        ensures
            r == phase_after(self.history().len()),
    {
        self.phase
    }

    /// The number of work units completed so far.
    pub fn tasks_done(&self) -> (r: u64)
        requires
            self.wf(),
        ensures
            r == total_of(self.history()),
    {
        self.tasks_done
    }

    /// Decides the next step from the time elapsed since the run started and
    /// the time budget (both in nanoseconds): once the elapsed time exceeds
    /// the budget the run finishes with its counter; until then it runs a
    /// burst in its current phase.
    pub fn decide(&self, elapsed_nanos: u128, budget_nanos: u128) -> (r: Step)
        requires
            self.wf(),
        ensures
            elapsed_nanos > budget_nanos ==> r == (Step::Finish {
                tasks_done: total_of(self.history()) as u64,
            }),
            elapsed_nanos <= budget_nanos ==> r == (Step::Burst {
                phase: phase_after(self.history().len()),
            }),
    {
        if elapsed_nanos > budget_nanos {
            Step::Finish { tasks_done: self.tasks_done }
        } else {
            Step::Burst { phase: self.phase }
        }
    }

    /// Performs a burst of `tasks` work units in the current phase, adds them
    /// to the counter and moves to the other phase. Holding the shared lock
    /// during a `Holding` burst is the caller's part.
    pub fn run_burst(&mut self, rng: &mut rand::rngs::ThreadRng, tasks: u64)
        requires
            old(self).wf(),
            total_of(old(self).history()) + tasks <= u64::MAX,
        ensures
            final(self).wf(),
            final(self).history() == old(self).history().push(tasks),
    {
        let done = busy_work(rng, tasks);
        let ghost before = self.bursts@;
        self.tasks_done = self.tasks_done + done;
        self.phase = self.phase.next();
        self.bursts = Ghost(before.push(tasks));
        proof {
            lemma_total_grows(before, tasks);
        }
    }
}

} // verus!
