//! The dashboard's run/stop protocol. The run flag is read once at the top
//! of every iteration: while it reads true another cycle runs; the first time
//! it reads false the loop stops for good and the log is flushed, once.
use vstd::prelude::*;

verus! {

/// Whether the dashboard loop still runs.
#[derive(Clone, Copy, Debug, PartialEq, Eq, Structural)]
pub enum Phase {
    Running,
    Stopped,
}

/// What the loop does after reading the run flag.
#[derive(Clone, Copy, Debug, PartialEq, Eq, Structural)]
pub enum Step {
    /// Sample, render, log one line pair, then sleep.
    Cycle,
    /// Leave the loop and write the log file.
    Flush,
    /// Nothing left to do.
    Halt,
}

/// Next phase and step from the phase and the flag just read.
pub open spec fn step_of(p: Phase, running: bool) -> (Phase, Step) {
    match p {
        Phase::Running => if running {
            (Phase::Running, Step::Cycle)
        } else {
            (Phase::Stopped, Step::Flush)
        },
        Phase::Stopped => (Phase::Stopped, Step::Halt),
    }
}

/// The steps taken from phase `p` for successive flag readings.
pub open spec fn steps(p: Phase, flags: Seq<bool>) -> Seq<Step>
    decreases flags.len(),
{
    if flags.len() == 0 {
        Seq::empty()
    } else {
        let (q, s) = step_of(p, flags[0]);
        seq![s] + steps(q, flags.drop_first())
    }
}

/// The loop's state.
pub struct Lifecycle {
    pub phase: Phase,
}

impl Lifecycle {
    /// A loop about to start its first iteration.
    pub fn new() -> (r: Self)
        ensures
            r.phase == Phase::Running,
    {
        Lifecycle { phase: Phase::Running }
    }

    /// The decision at the top of an iteration, given the run flag's value.
    pub fn next(&mut self, running: bool) -> (r: Step)
        ensures
            (final(self).phase, r) == step_of(old(self).phase, running),
    {
        match self.phase {
            Phase::Running => if running {
                Step::Cycle
            } else {
                self.phase = Phase::Stopped;
                Step::Flush
            },
            Phase::Stopped => Step::Halt,
        }
    }
}

/// Once stopped, whatever the flag reads, the loop only halts.
pub proof fn lemma_stopped_halts(flags: Seq<bool>)
    ensures
        steps(Phase::Stopped, flags).len() == flags.len(),
        forall|j: int| 0 <= j < flags.len() ==> steps(Phase::Stopped, flags)[j] == Step::Halt,
    decreases flags.len(),
{
    if flags.len() > 0 {
        lemma_stopped_halts(flags.drop_first());
        assert forall|j: int| 0 <= j < flags.len() implies steps(Phase::Stopped, flags)[j]
            == Step::Halt by {
            if j > 0 {
                assert(steps(Phase::Stopped, flags)[j] == steps(
                    Phase::Stopped,
                    flags.drop_first(),
                )[j - 1]);
            }
        }
    }
}

/// After the flag reads false at some iteration, no further cycle runs, and
/// the log is flushed exactly once: at the first iteration that read false.
pub proof fn lemma_stop_is_final(flags: Seq<bool>, k: int)
    requires
        0 <= k < flags.len(),
        !flags[k],
        forall|j: int| 0 <= j < k ==> flags[j],
    ensures
        steps(Phase::Running, flags).len() == flags.len(),
        forall|j: int| 0 <= j < k ==> steps(Phase::Running, flags)[j] == Step::Cycle,
        steps(Phase::Running, flags)[k] == Step::Flush,
        forall|j: int| k < j < flags.len() ==> steps(Phase::Running, flags)[j] == Step::Halt,
    decreases k,
{
    let rest = flags.drop_first();
    if k == 0 {
        lemma_stopped_halts(rest);
        assert forall|j: int| 0 < j < flags.len() implies steps(Phase::Running, flags)[j]
            == Step::Halt by {
            assert(steps(Phase::Running, flags)[j] == steps(Phase::Stopped, rest)[j - 1]);
        }
    } else {
        assert forall|j: int| 0 <= j < k - 1 implies rest[j] by {
            assert(rest[j] == flags[j + 1]);
        }
        lemma_stop_is_final(rest, k - 1);
        assert forall|j: int| 0 < j < flags.len() implies steps(Phase::Running, flags)[j]
            == steps(Phase::Running, rest)[j - 1] by {}
    }
}

} // verus!
