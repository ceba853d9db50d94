//! The position of a cosine schedule with warm restarts: the step within the
//! current period, and the length of that period, which grows by a factor at
//! every restart.
use vstd::prelude::*;

verus! {

/// `a * b`, or `usize::MAX` where the product does not fit.
pub open spec fn saturating_product(a: nat, b: nat) -> nat {
    if a * b <= usize::MAX {
        a * b
    } else {
        usize::MAX as nat
    }
}

/// Folds an unbounded step count into the current period: while the step
/// lies past the period, one whole period and the restart step are taken off
/// and the period grows by `t_mult`. Returns the step within the period and
/// the period.
pub open spec fn fold_restarts(step: nat, t_max: nat, t_mult: nat) -> (nat, nat)
    decreases step,
{
    if step > t_max {
        fold_restarts((step - t_max - 1) as nat, saturating_product(t_max, t_mult), t_mult)
    } else {
        (step, t_max)
    }
}

/// A value coerced to at least one.
pub open spec fn at_least_one(x: nat) -> nat {
    if x == 0 {
        1
    } else {
        x
    }
}

/// The abstract state of a [`RestartClock`].
pub struct RestartState {
    pub step_cur: nat,
    pub t_max: nat,
    pub t_mult: nat,
}

impl RestartState {
    /// The state of a clock made with these arguments.
    pub open spec fn initial(t_0: nat, t_mult: nat, init_step: nat) -> RestartState {
        let folded = fold_restarts(init_step, at_least_one(t_0), at_least_one(t_mult));
        RestartState { step_cur: folded.0, t_max: folded.1, t_mult: at_least_one(t_mult) }
    }

    /// The state reached by one call of `step`.
    pub open spec fn next(self) -> RestartState {
        let folded = fold_restarts(self.step_cur + 1, self.t_max, self.t_mult);
        RestartState { step_cur: folded.0, t_max: folded.1, t_mult: self.t_mult }
    }

    /// The state reached after `k` calls of `step`.
    pub open spec fn advanced(self, k: nat) -> RestartState
        decreases k,
    {
        if k == 0 {
            self
        } else {
            self.advanced((k - 1) as nat).next()
        }
    }
}

/// The step counter of a cosine schedule with warm restarts.
///
/// The step within the period runs from zero up to `t_max` inclusive; the
/// step after `t_max` is a restart at zero with the period multiplied by
/// `t_mult`. A period that would pass `usize::MAX` stays there.
#[derive(Debug)]
pub struct RestartClock {
    step_cur: usize,
    t_max: usize,
    t_mult: usize,
}

impl View for RestartClock {
    type V = RestartState;

    closed spec fn view(&self) -> RestartState {
        RestartState {
            step_cur: self.step_cur as nat,
            t_max: self.t_max as nat,
            t_mult: self.t_mult as nat,
        }
    }
}

impl Clone for RestartClock {
    /// A copy in the same state.
    fn clone(&self) -> (r: RestartClock)
        ensures
            r@ == self@,
    {
        proof {
            use_type_invariant(self);
        }
        RestartClock { step_cur: self.step_cur, t_max: self.t_max, t_mult: self.t_mult }
    }
}

/// `a * b`, saturating at `usize::MAX`.
fn saturating_mul(a: usize, b: usize) -> (r: usize)
    ensures
        r == saturating_product(a as nat, b as nat),
{
    match a.checked_mul(b) {
        Some(p) => p,
        None => usize::MAX,
    }
}

proof fn lemma_product_positive(a: nat, b: nat)
    requires
        1 <= a <= usize::MAX,
        b >= 1,
    ensures
        saturating_product(a, b) >= a,
{
    assert(a * b >= a * 1) by (nonlinear_arith)
        requires
            b >= 1,
    ;
}

/// Folding never leaves a period of zero, and leaves the step within it.
proof fn lemma_fold_in_period(step: nat, t_max: nat, t_mult: nat)
    requires
        1 <= t_max <= usize::MAX,
        t_mult >= 1,
    ensures
        fold_restarts(step, t_max, t_mult).1 >= 1,
        fold_restarts(step, t_max, t_mult).0 <= fold_restarts(step, t_max, t_mult).1,
    decreases step,
{
    if step > t_max {
        lemma_product_positive(t_max, t_mult);
        lemma_fold_in_period(
            (step - t_max - 1) as nat,
            saturating_product(t_max, t_mult),
            t_mult,
        );
    }
}

/// Folding `step` and then taking one more step is folding `step + 1`.
proof fn lemma_fold_then_step(step: nat, t_max: nat, t_mult: nat)
    ensures
        fold_restarts(
            fold_restarts(step, t_max, t_mult).0 + 1,
            fold_restarts(step, t_max, t_mult).1,
            t_mult,
        ) == fold_restarts(step + 1, t_max, t_mult),
    decreases step,
{
    if step > t_max {
        lemma_fold_then_step(
            (step - t_max - 1) as nat,
            saturating_product(t_max, t_mult),
            t_mult,
        );
        assert((step + 1 - t_max - 1) as nat == ((step - t_max - 1) as nat) + 1);
    }
}

impl RestartClock {
    #[verifier::type_invariant]
    spec fn within_period(self) -> bool {
        &&& 1 <= self.t_max
        &&& self.step_cur <= self.t_max
        &&& 1 <= self.t_mult
    }

    /// A clock at `init_step` for a first period of `t_0` that grows by
    /// `t_mult` at each restart. A `t_0` or `t_mult` of zero counts as one.
    pub fn new(t_0: usize, t_mult: usize, init_step: usize) -> (r: RestartClock)
        ensures
            r@ == RestartState::initial(t_0 as nat, t_mult as nat, init_step as nat),
    {
        let t_mult = if t_mult == 0 {
            1
        } else {
            t_mult
        };
        let t_0 = if t_0 == 0 {
            1
        } else {
            t_0
        };
        let mut step_cur = init_step;
        let mut t_max = t_0;
        while step_cur > t_max
            invariant
                1 <= t_max,
                1 <= t_mult,
                fold_restarts(step_cur as nat, t_max as nat, t_mult as nat) == fold_restarts(
                    init_step as nat,
                    t_0 as nat,
                    t_mult as nat,
                ),
            decreases step_cur,
        {
            proof {
                lemma_product_positive(t_max as nat, t_mult as nat);
            }
            step_cur = step_cur - (t_max + 1);
            t_max = saturating_mul(t_max, t_mult);
        }
        proof {
            lemma_fold_in_period(init_step as nat, t_0 as nat, t_mult as nat);
        }
        RestartClock { step_cur, t_max, t_mult }
    }

    /// Advances the clock by one step. From the last step of a period it
    /// restarts at zero, with the period multiplied by `t_mult`.
    pub fn step(&mut self)
        ensures
            final(self)@ == old(self)@.next(),
            old(self)@.step_cur < old(self)@.t_max ==> final(self)@ == (RestartState {
                step_cur: old(self)@.step_cur + 1,
                ..old(self)@
            }),
            old(self)@.step_cur == old(self)@.t_max ==> final(self)@ == (RestartState {
                step_cur: 0,
                t_max: saturating_product(old(self)@.t_max, old(self)@.t_mult),
                ..old(self)@
            }),
    {
        proof {
            use_type_invariant(&*self);
            lemma_product_positive(self.t_max as nat, self.t_mult as nat);
        }
        if self.step_cur < self.t_max {
            self.step_cur = self.step_cur + 1;
        } else {
            let grown = saturating_mul(self.t_max, self.t_mult);
            assert(fold_restarts(0, grown as nat, self.t_mult as nat) == (0nat, grown as nat));
            self.step_cur = 0;
            self.t_max = grown;
        }
    }

    /// The step within the current period, from zero to `t_max`.
    pub fn step_cur(&self) -> (r: usize)
        ensures
            r == self@.step_cur,
            r <= self@.t_max,
    {
        proof {
            use_type_invariant(self);
        }
        self.step_cur
    }

    /// The length of the current period, at least one.
    pub fn t_max(&self) -> (r: usize)
        ensures
            r == self@.t_max,
            r >= 1,
    {
        proof {
            use_type_invariant(self);
        }
        self.t_max
    }

    /// The factor by which the period grows at each restart, at least one.
    pub fn t_mult(&self) -> (r: usize)
        ensures
            r == self@.t_mult,
            r >= 1,
    {
        proof {
            use_type_invariant(self);
        }
        self.t_mult
    }
}

/// Resuming at `init_step = k` gives the state that `k` steps from zero give.
pub proof fn lemma_restart_resume(t_0: nat, t_mult: nat, k: nat)
    ensures
        RestartState::initial(t_0, t_mult, 0).advanced(k) == RestartState::initial(t_0, t_mult, k),
    decreases k,
{
    if k > 0 {
        lemma_restart_resume(t_0, t_mult, (k - 1) as nat);
        lemma_fold_then_step((k - 1) as nat, at_least_one(t_0), at_least_one(t_mult));
    }
}

} // verus!
