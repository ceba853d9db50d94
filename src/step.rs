//! The step counter of a step-decay schedule, which decays the rate once
//! every `step_size` steps.
use vstd::prelude::*;

verus! {

/// The abstract state of a [`StepClock`].
pub struct StepState {
    pub step: nat,
    pub step_size: nat,
}

impl StepState {
    /// The number of decays applied at the current step.
    pub open spec fn decays(self) -> nat {
        self.step / self.step_size
    }

    /// The state reached by one call of `step`.
    pub open spec fn next(self) -> StepState {
        StepState { step: self.step + 1, step_size: self.step_size }
    }

    /// The state reached after `k` calls of `step`.
    pub open spec fn advanced(self, k: nat) -> StepState
        decreases k,
    {
        if k == 0 {
            self
        } else {
            self.advanced((k - 1) as nat).next()
        }
    }
}

/// A step counter that reports how many whole periods of `step_size` have
/// passed.
#[derive(Debug)]
pub struct StepClock {
    step: usize,
    step_size: usize,
}

impl View for StepClock {
    type V = StepState;

    closed spec fn view(&self) -> StepState {
        StepState { step: self.step as nat, step_size: self.step_size as nat }
    }
}

impl Clone for StepClock {
    /// A copy in the same state.
    fn clone(&self) -> (r: StepClock)
        ensures
            r@ == self@,
    {
        proof {
            use_type_invariant(self);
        }
        StepClock { step: self.step, step_size: self.step_size }
    }
}

impl StepClock {
    #[verifier::type_invariant]
    spec fn positive_period(self) -> bool {
        self.step_size > 0
    }

    /// A clock at `init_step` that decays every `step_size` steps.
    pub fn new(step_size: usize, init_step: usize) -> (r: StepClock)
        requires
            step_size > 0,
        ensures
            r@ == (StepState { step: init_step as nat, step_size: step_size as nat }),
    {
        StepClock { step: init_step, step_size }
    }

    /// Advances the clock by one step.
    pub fn step(&mut self)
        requires
            old(self)@.step < usize::MAX,
        ensures
            final(self)@ == old(self)@.next(),
    {
        proof {
            use_type_invariant(&*self);
        }
        self.step = self.step + 1;
    }

    /// The current step.
    pub fn step_count(&self) -> (r: usize)
        ensures
            r == self@.step,
    {
        self.step
    }

    /// The number of steps between two decays.
    pub fn step_size(&self) -> (r: usize)
        ensures
            r == self@.step_size,
            r > 0,
    {
        proof {
            use_type_invariant(self);
        }
        self.step_size
    }

    /// The number of decays applied at the current step: the current step
    /// divided by `step_size`, rounded down.
    pub fn decays(&self) -> (r: usize)
        ensures
            r == self@.decays(),
    {
        proof {
            use_type_invariant(self);
        }
        self.step / self.step_size
    }
}

/// Resuming at `init_step = k` gives the state that `k` steps from zero give.
pub proof fn lemma_step_resume(step_size: nat, k: nat)
    ensures
        (StepState { step: 0, step_size }).advanced(k) == (StepState { step: k, step_size }),
    decreases k,
{
    if k > 0 {
        lemma_step_resume(step_size, (k - 1) as nat);
    }
}

} // verus!
