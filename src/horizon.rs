//! A step counter with a fixed horizon, after which a schedule holds its
//! terminal value.
use vstd::prelude::*;

verus! {

/// The abstract state of a [`Horizon`].
pub struct HorizonState {
    pub step: nat,
    pub total_iters: nat,
}

impl HorizonState {
    /// The state reached by one call of `step`.
    pub open spec fn next(self) -> HorizonState {
        HorizonState { step: self.step + 1, total_iters: self.total_iters }
    }

    /// The state reached after `k` calls of `step`.
    pub open spec fn advanced(self, k: nat) -> HorizonState
        decreases k,
    {
        if k == 0 {
            self
        } else {
            self.advanced((k - 1) as nat).next()
        }
    }

    /// The schedule has reached its horizon and holds its terminal value.
    pub open spec fn is_saturated(self) -> bool {
        self.step >= self.total_iters
    }

    /// The number of steps taken towards the horizon, never past it.
    pub open spec fn elapsed(self) -> nat {
        if self.step <= self.total_iters {
            self.step
        } else {
            self.total_iters
        }
    }
}

/// A step counter that saturates once it reaches `total_iters`.
///
/// Constant, linear and polynomial schedules all change until the counter
/// reaches the horizon and are constant from there on; a horizon of zero is
/// saturated from the start.
#[derive(Debug)]
pub struct Horizon {
    step: usize,
    total_iters: usize,
}

impl View for Horizon {
    type V = HorizonState;

    closed spec fn view(&self) -> HorizonState {
        HorizonState { step: self.step as nat, total_iters: self.total_iters as nat }
    }
}

impl Clone for Horizon {
    /// A copy in the same state.
    fn clone(&self) -> (r: Horizon)
        ensures
            r@ == self@,
    {
        Horizon { step: self.step, total_iters: self.total_iters }
    }
}

impl Horizon {
    /// A counter at `init_step` with the given horizon.
    pub fn new(total_iters: usize, init_step: usize) -> (r: Horizon)
        ensures
            r@ == (HorizonState { step: init_step as nat, total_iters: total_iters as nat }),
    {
        Horizon { step: init_step, total_iters }
    }

    /// Advances the counter by one step.
    pub fn step(&mut self)
        requires
            old(self)@.step < usize::MAX,
        ensures
            final(self)@ == old(self)@.next(),
    {
        self.step = self.step + 1;
    }

    /// The current step.
    pub fn step_count(&self) -> (r: usize)
        ensures
            r == self@.step,
    {
        self.step
    }

    /// The horizon.
    pub fn total_iters(&self) -> (r: usize)
        ensures
            r == self@.total_iters,
    {
        self.total_iters
    }

    /// Whether the counter has reached the horizon.
    pub fn is_saturated(&self) -> (r: bool)
        ensures
            r == self@.is_saturated(),
    {
        self.step >= self.total_iters
    }

    /// The steps taken towards the horizon: the current step, clamped at the
    /// horizon.
    pub fn elapsed(&self) -> (r: usize)
        ensures
            r == self@.elapsed(),
            r <= self@.total_iters,
    {
        if self.step <= self.total_iters {
            self.step
        } else {
            self.total_iters
        }
    }
}

/// Resuming at `init_step = k` gives the state that `k` steps from zero give.
pub proof fn lemma_horizon_resume(total_iters: nat, k: nat)
    ensures
        (HorizonState { step: 0, total_iters }).advanced(k) == (HorizonState {
            step: k,
            total_iters,
        }),
    decreases k,
{
    if k > 0 {
        lemma_horizon_resume(total_iters, (k - 1) as nat);
    }
}

/// From any state, `k` steps add `k` to the counter and keep the horizon.
pub proof fn lemma_horizon_advanced(s: HorizonState, k: nat)
    ensures
        s.advanced(k) == (HorizonState { step: s.step + k, total_iters: s.total_iters }),
    decreases k,
{
    if k > 0 {
        lemma_horizon_advanced(s, (k - 1) as nat);
    }
}

/// Started at zero, the counter saturates exactly at the horizon: it is short
/// of it for every `k < total_iters`, saturated for every `k >= total_iters`,
/// and the elapsed steps never pass the horizon.
pub proof fn lemma_horizon_clamps_at_total(total_iters: nat, k: nat)
    ensures
        (HorizonState { step: 0, total_iters }).advanced(k).is_saturated() <==> k >= total_iters,
        (HorizonState { step: 0, total_iters }).advanced(k).elapsed() == if k <= total_iters {
            k
        } else {
            total_iters
        },
        (HorizonState { step: 0, total_iters }).advanced(k).elapsed() <= total_iters,
{
    lemma_horizon_resume(total_iters, k);
}

/// Once saturated, a counter stays saturated and its elapsed steps stay at
/// the horizon.
pub proof fn lemma_horizon_stays_saturated(s: HorizonState, k: nat)
    requires
        s.is_saturated(),
    ensures
        s.advanced(k).is_saturated(),
        s.advanced(k).elapsed() == s.total_iters,
{
    lemma_horizon_advanced(s, k);
}

} // verus!
