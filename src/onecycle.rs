//! The phases of the one-cycle policy: a warmup to the peak rate, an
//! annealing from it, and in the three-phase form a final annealing.
use vstd::prelude::*;

verus! {

/// How a rate is blended between the two ends of a phase.
#[derive(Clone, Copy, Debug, PartialEq, Eq)]
pub enum AnnealStrategy {
    Cos,
    Linear,
}

/// The phase that a step of a one-cycle schedule falls in.
#[derive(Clone, Copy, Debug, PartialEq, Eq, Structural)]
pub enum Phase {
    /// From the initial rate up to the peak.
    Warmup,
    /// From the peak down to the minimum (two phases) or back to the initial
    /// rate (three phases).
    Annealing,
    /// From the initial rate down to the minimum (three phases only).
    FinalAnnealing,
    /// Past the last step: the rate stays at the minimum.
    Finished,
}

/// Where a step stands: its phase, and its progress through that phase as
/// the fraction `done / len`.
#[derive(Clone, Copy, Debug, PartialEq, Eq)]
pub struct PhasePoint {
    pub phase: Phase,
    pub done: usize,
    pub len: usize,
}

/// The abstract state of a [`OneCycleClock`].
pub struct OneCycleState {
    pub total_steps: nat,
    pub warmup_steps: nat,
    pub annealing_steps: nat,
    pub final_annealing_steps: nat,
    pub step_count: nat,
}

impl OneCycleState {
    /// The phase of the current step.
    pub open spec fn phase(self) -> Phase {
        if self.step_count >= self.total_steps {
            Phase::Finished
        } else if self.step_count <= self.warmup_steps {
            Phase::Warmup
        } else if self.step_count <= self.warmup_steps + self.annealing_steps {
            Phase::Annealing
        } else {
            Phase::FinalAnnealing
        }
    }

    /// The first step of the current phase.
    pub open spec fn phase_start(self) -> nat {
        match self.phase() {
            Phase::Annealing => self.warmup_steps,
            Phase::FinalAnnealing => self.warmup_steps + self.annealing_steps,
            _ => 0,
        }
    }

    /// The length of the current phase.
    pub open spec fn phase_len(self) -> nat {
        match self.phase() {
            Phase::Warmup => self.warmup_steps,
            Phase::Annealing => self.annealing_steps,
            Phase::FinalAnnealing => self.final_annealing_steps,
            Phase::Finished => 0,
        }
    }

    /// The numerator of the progress through the current phase. A phase of
    /// length zero, and the finished state, count as complete.
    pub open spec fn progress_done(self) -> nat {
        if self.phase() != Phase::Finished && self.phase_len() > 0 {
            (self.step_count - self.phase_start()) as nat
        } else {
            1
        }
    }

    /// The denominator of the progress through the current phase, never zero.
    pub open spec fn progress_len(self) -> nat {
        if self.phase() != Phase::Finished && self.phase_len() > 0 {
            self.phase_len()
        } else {
            1
        }
    }
}

/// The step counter of a one-cycle schedule, with the lengths of its phases.
///
/// The phase lengths always add up to `total_steps`; in the two-phase form
/// the final annealing is empty.
#[derive(Debug)]
pub struct OneCycleClock {
    total_steps: usize,
    warmup_steps: usize,
    annealing_steps: usize,
    final_annealing_steps: usize,
    step_count: usize,
}

impl View for OneCycleClock {
    type V = OneCycleState;

    closed spec fn view(&self) -> OneCycleState {
        OneCycleState {
            total_steps: self.total_steps as nat,
            warmup_steps: self.warmup_steps as nat,
            annealing_steps: self.annealing_steps as nat,
            final_annealing_steps: self.final_annealing_steps as nat,
            step_count: self.step_count as nat,
        }
    }
}

impl Clone for OneCycleClock {
    /// A copy in the same state.
    fn clone(&self) -> (r: OneCycleClock)
        ensures
            r@ == self@,
    {
        proof {
            use_type_invariant(self);
        }
        OneCycleClock {
            total_steps: self.total_steps,
            warmup_steps: self.warmup_steps,
            annealing_steps: self.annealing_steps,
            final_annealing_steps: self.final_annealing_steps,
            step_count: self.step_count,
        }
    }
}

impl OneCycleClock {
    #[verifier::type_invariant]
    spec fn phases_cover_total(self) -> bool {
        self.warmup_steps + self.annealing_steps + self.final_annealing_steps == self.total_steps
    }

    /// A two-phase clock at step zero: `warmup_steps` of warmup, and the rest
    /// of `total_steps` annealing.
    pub fn new_two_phase(total_steps: usize, warmup_steps: usize) -> (r: OneCycleClock)
        requires
            warmup_steps <= total_steps,
        ensures
            r@ == (OneCycleState {
                total_steps: total_steps as nat,
                warmup_steps: warmup_steps as nat,
                annealing_steps: (total_steps - warmup_steps) as nat,
                final_annealing_steps: 0,
                step_count: 0,
            }),
            r@.warmup_steps + r@.annealing_steps + r@.final_annealing_steps == total_steps,
    {
        OneCycleClock {
            total_steps,
            warmup_steps,
            annealing_steps: total_steps - warmup_steps,
            final_annealing_steps: 0,
            step_count: 0,
        }
    }

    /// A three-phase clock at step zero: `warmup_steps` of warmup,
    /// `annealing_steps` of annealing, and the rest of `total_steps` final
    /// annealing.
    pub fn new_three_phase(total_steps: usize, warmup_steps: usize, annealing_steps: usize) -> (r:
        OneCycleClock)
        requires
            warmup_steps + annealing_steps <= total_steps,
        ensures
            r@ == (OneCycleState {
                total_steps: total_steps as nat,
                warmup_steps: warmup_steps as nat,
                annealing_steps: annealing_steps as nat,
                final_annealing_steps: (total_steps - warmup_steps - annealing_steps) as nat,
                step_count: 0,
            }),
            r@.warmup_steps + r@.annealing_steps + r@.final_annealing_steps == total_steps,
    {
        OneCycleClock {
            total_steps,
            warmup_steps,
            annealing_steps,
            final_annealing_steps: total_steps - warmup_steps - annealing_steps,
            step_count: 0,
        }
    }

    /// Advances the clock by one step.
    pub fn step(&mut self)
        requires
            old(self)@.step_count < usize::MAX,
        ensures
            final(self)@ == (OneCycleState { step_count: old(self)@.step_count + 1, ..old(self)@ }),
    {
        proof {
            use_type_invariant(&*self);
        }
        self.step_count = self.step_count + 1;
    }

    /// The number of steps taken.
    pub fn step_count(&self) -> (r: usize)
        ensures
            r == self@.step_count,
    {
        self.step_count
    }

    /// The total number of steps of the cycle.
    pub fn total_steps(&self) -> (r: usize)
        ensures
            r == self@.total_steps,
    {
        self.total_steps
    }

    /// The length of the warmup phase.
    pub fn warmup_steps(&self) -> (r: usize)
        ensures
            r == self@.warmup_steps,
    {
        self.warmup_steps
    }

    /// The length of the annealing phase.
    pub fn annealing_steps(&self) -> (r: usize)
        ensures
            r == self@.annealing_steps,
    {
        self.annealing_steps
    }

    /// The length of the final annealing phase.
    pub fn final_annealing_steps(&self) -> (r: usize)
        ensures
            r == self@.final_annealing_steps,
    {
        self.final_annealing_steps
    }

    /// The phase of the current step and the progress through it. The
    /// progress never passes the end of its phase.
    pub fn position(&self) -> (r: PhasePoint)
        ensures
            r.phase == self@.phase(),
            r.done == self@.progress_done(),
            r.len == self@.progress_len(),
            0 < r.len,
            r.done <= r.len,
    {
        proof {
            use_type_invariant(self);
        }
        let whole = PhasePoint { phase: Phase::Finished, done: 1, len: 1 };
        if self.step_count >= self.total_steps {
            whole
        } else if self.step_count <= self.warmup_steps {
            if self.warmup_steps > 0 {
                PhasePoint { phase: Phase::Warmup, done: self.step_count, len: self.warmup_steps }
            } else {
                PhasePoint { phase: Phase::Warmup, ..whole }
            }
        } else if self.step_count - self.warmup_steps <= self.annealing_steps {
            if self.annealing_steps > 0 {
                PhasePoint {
                    phase: Phase::Annealing,
                    done: self.step_count - self.warmup_steps,
                    len: self.annealing_steps,
                }
            } else {
                PhasePoint { phase: Phase::Annealing, ..whole }
            }
        } else {
            PhasePoint {
                phase: Phase::FinalAnnealing,
                done: self.step_count - self.warmup_steps - self.annealing_steps,
                len: self.final_annealing_steps,
            }
        }
    }
}

/// Once past its last step, a cycle stays finished at every later step.
pub proof fn lemma_onecycle_stays_finished(s: OneCycleState, k: nat)
    requires
        s.phase() == Phase::Finished,
    ensures
        (OneCycleState { step_count: s.step_count + k, ..s }).phase() == Phase::Finished,
{
}

} // verus!
