//! The step counter of a cosine schedule that oscillates with a period of
//! `2 * t_max` steps.
use vstd::prelude::*;
use vstd::arithmetic::div_mod::{lemma_mod_add_multiples_vanish, lemma_mod_twice};

verus! {

/// The phase of step `step` in a period of `2 * t_max`, counted in steps.
pub open spec fn cosine_phase(step: nat, t_max: nat) -> nat {
    step % (2 * t_max)
}

/// The abstract state of a [`CosineClock`].
pub struct CosineState {
    pub step: nat,
    pub t_max: nat,
}

impl CosineState {
    /// The state of a clock made with these arguments.
    pub open spec fn initial(t_max: nat, init_step: nat) -> CosineState {
        CosineState {
            step: init_step,
            t_max: if t_max == 0 {
                1
            } else {
                t_max
            },
        }
    }

    /// The phase of the current step.
    pub open spec fn phase(self) -> nat {
        cosine_phase(self.step, self.t_max)
    }

    /// The state reached by one call of `step`.
    pub open spec fn next(self) -> CosineState {
        CosineState { step: self.step + 1, t_max: self.t_max }
    }

    /// The state reached after `k` calls of `step`.
    pub open spec fn advanced(self, k: nat) -> CosineState
        decreases k,
    {
        if k == 0 {
            self
        } else {
            self.advanced((k - 1) as nat).next()
        }
    }
}

/// The step counter of a cosine schedule. The rate runs from its first bound
/// at phase zero to its second at phase `t_max` and back by phase `2 * t_max`.
#[derive(Debug)]
pub struct CosineClock {
    step: usize,
    t_max: usize,
}

impl View for CosineClock {
    type V = CosineState;

    closed spec fn view(&self) -> CosineState {
        CosineState { step: self.step as nat, t_max: self.t_max as nat }
    }
}

impl Clone for CosineClock {
    /// A copy in the same state.
    fn clone(&self) -> (r: CosineClock)
        ensures
            r@ == self@,
    {
        proof {
            use_type_invariant(self);
        }
        CosineClock { step: self.step, t_max: self.t_max }
    }
}

impl CosineClock {
    #[verifier::type_invariant]
    spec fn period_fits(self) -> bool {
        1 <= self.t_max && 2 * self.t_max <= usize::MAX
    }

    /// A clock at `init_step` for a half period of `t_max`; a `t_max` of zero
    /// counts as one.
    pub fn new(t_max: usize, init_step: usize) -> (r: CosineClock)
        requires
            2 * t_max <= usize::MAX,
        ensures
            r@ == CosineState::initial(t_max as nat, init_step as nat),
    {
        let t_max = if t_max == 0 {
            1
        } else {
            t_max
        };
        CosineClock { step: init_step, t_max }
    }

    /// Advances the clock by one step.
    pub fn step(&mut self)
        requires
            old(self)@.step < usize::MAX,
        ensures
            final(self)@ == old(self)@.next(),
    {
        proof {
            use_type_invariant(&*self);
        }
        self.step = self.step + 1;
    }

    /// The current step.
    pub fn step_count(&self) -> (r: usize)
        ensures
            r == self@.step,
    {
        self.step
    }

    /// The half period, at least one.
    pub fn t_max(&self) -> (r: usize)
        ensures
            r == self@.t_max,
            r >= 1,
    {
        proof {
            use_type_invariant(self);
        }
        self.t_max
    }

    /// The phase of the current step, below `2 * t_max`.
    pub fn phase(&self) -> (r: usize)
        ensures
            r == self@.phase(),
            r < 2 * self@.t_max,
    {
        proof {
            use_type_invariant(self);
        }
        self.step % (2 * self.t_max)
    }
}

/// The phase repeats every `2 * t_max` steps: a step and its remainder by the
/// period have the same phase, and so do a step and the step one period on.
pub proof fn lemma_cosine_periodic(t_max: nat, n: nat)
    requires
        t_max >= 1,
    ensures
        cosine_phase(n % (2 * t_max), t_max) == cosine_phase(n, t_max),
        cosine_phase(n + 2 * t_max, t_max) == cosine_phase(n, t_max),
{
    let period = (2 * t_max) as int;
    lemma_mod_twice(n as int, period);
    lemma_mod_add_multiples_vanish(n as int, period);
}

/// Resuming at `init_step = k` gives the state that `k` steps from zero give.
pub proof fn lemma_cosine_resume(t_max: nat, k: nat)
    ensures
        CosineState::initial(t_max, 0).advanced(k) == CosineState::initial(t_max, k),
    decreases k,
{
    if k > 0 {
        lemma_cosine_resume(t_max, (k - 1) as nat);
    }
}

} // verus!
