//! The patience and cooldown bookkeeping of a plateau monitor, which reduces
//! the rate once a metric has stopped improving.
use vstd::prelude::*;

verus! {

/// Whether a lower or a higher metric is better.
#[derive(Clone, Copy, Debug, PartialEq, Eq)]
pub enum Mode {
    Min,
    Max,
}

/// Whether the improvement threshold is relative to the best metric or an
/// absolute offset from it.
#[derive(Clone, Copy, Debug, PartialEq, Eq)]
pub enum ThresholdMode {
    Rel,
    Abs,
}

/// The abstract state of a [`PlateauCounter`].
pub struct PlateauState {
    pub patience: nat,
    pub cooldown: nat,
    pub num_bad_epochs: nat,
    pub cooldown_counter: nat,
}

/// Whether `num_bad_epochs` epochs without improvement call for a reduction:
/// any bad epoch when `patience` is zero, else `patience` of them.
pub open spec fn patience_exhausted(patience: nat, num_bad_epochs: nat) -> bool {
    if patience == 0 {
        num_bad_epochs > 0
    } else {
        num_bad_epochs >= patience
    }
}

impl PlateauState {
    /// The monitor is waiting out a cooldown after a reduction.
    pub open spec fn in_cooldown(self) -> bool {
        self.cooldown_counter > 0
    }

    /// The bad-epoch count after an epoch outside cooldown.
    pub open spec fn counted(self, improved: bool) -> nat {
        if improved {
            0
        } else {
            self.num_bad_epochs + 1
        }
    }

    /// Whether an epoch with the given outcome calls for a reduction.
    pub open spec fn reduces(self, improved: bool) -> bool {
        !self.in_cooldown() && patience_exhausted(self.patience, self.counted(improved))
    }

    /// The state after an epoch with the given outcome. In cooldown only the
    /// cooldown counter moves; a reduction clears the bad epochs and starts
    /// the cooldown.
    pub open spec fn next(self, improved: bool) -> PlateauState {
        if self.in_cooldown() {
            PlateauState { cooldown_counter: (self.cooldown_counter - 1) as nat, ..self }
        } else if self.reduces(improved) {
            PlateauState { num_bad_epochs: 0, cooldown_counter: self.cooldown, ..self }
        } else {
            PlateauState { num_bad_epochs: self.counted(improved), ..self }
        }
    }
}

/// Counts epochs without improvement and decides when the rate is reduced.
///
/// The caller compares each metric against the best one seen and reports
/// whether it improved; the counter answers whether to reduce the rate now.
#[derive(Debug)]
pub struct PlateauCounter {
    patience: usize,
    cooldown: usize,
    num_bad_epochs: usize,
    cooldown_counter: usize,
}

impl View for PlateauCounter {
    type V = PlateauState;

    closed spec fn view(&self) -> PlateauState {
        PlateauState {
            patience: self.patience as nat,
            cooldown: self.cooldown as nat,
            num_bad_epochs: self.num_bad_epochs as nat,
            cooldown_counter: self.cooldown_counter as nat,
        }
    }
}

impl Clone for PlateauCounter {
    /// A copy in the same state.
    fn clone(&self) -> (r: PlateauCounter)
        ensures
            r@ == self@,
    {
        proof {
            use_type_invariant(self);
        }
        PlateauCounter {
            patience: self.patience,
            cooldown: self.cooldown,
            num_bad_epochs: self.num_bad_epochs,
            cooldown_counter: self.cooldown_counter,
        }
    }
}

impl PlateauCounter {
    #[verifier::type_invariant]
    spec fn bounded(self) -> bool {
        &&& !patience_exhausted(self.patience as nat, self.num_bad_epochs as nat)
        &&& self.cooldown_counter <= self.cooldown
    }

    /// A counter with no bad epochs and no cooldown running.
    pub fn new(patience: usize, cooldown: usize) -> (r: PlateauCounter)
        ensures
            r@ == (PlateauState {
                patience: patience as nat,
                cooldown: cooldown as nat,
                num_bad_epochs: 0,
                cooldown_counter: 0,
            }),
    {
        PlateauCounter { patience, cooldown, num_bad_epochs: 0, cooldown_counter: 0 }
    }

    /// Records one epoch, `improved` telling whether its metric beat the best
    /// one by the threshold, and returns whether the rate is to be reduced.
    ///
    /// During a cooldown no bad epoch is counted and nothing is reduced.
    pub fn observe(&mut self, improved: bool) -> (reduce: bool)
        ensures
            reduce == old(self)@.reduces(improved),
            final(self)@ == old(self)@.next(improved),
            final(self)@.num_bad_epochs < if final(self)@.patience == 0 {
                1
            } else {
                final(self)@.patience
            },
            final(self)@.cooldown_counter <= final(self)@.cooldown,
    {
        proof {
            use_type_invariant(&*self);
        }
        if self.cooldown_counter > 0 {
            self.cooldown_counter = self.cooldown_counter - 1;
            return false;
        }
        let num_bad_epochs: usize = if improved {
            0
        } else {
            self.num_bad_epochs + 1
        };
        let exhausted = if self.patience == 0 {
            num_bad_epochs > 0
        } else {
            num_bad_epochs >= self.patience
        };
        if exhausted {
            self.num_bad_epochs = 0;
            self.cooldown_counter = self.cooldown;
        } else {
            self.num_bad_epochs = num_bad_epochs;
        }
        exhausted
    }

    /// Whether a cooldown is running.
    pub fn in_cooldown(&self) -> (r: bool)
        ensures
            r == self@.in_cooldown(),
    {
        self.cooldown_counter > 0
    }

    /// The epochs without improvement counted since the last improvement or
    /// reduction.
    pub fn num_bad_epochs(&self) -> (r: usize)
        ensures
            r == self@.num_bad_epochs,
    {
        self.num_bad_epochs
    }

    /// The epochs of cooldown still to run.
    pub fn cooldown_counter(&self) -> (r: usize)
        ensures
            r == self@.cooldown_counter,
    {
        self.cooldown_counter
    }

    /// The number of bad epochs that triggers a reduction.
    pub fn patience(&self) -> (r: usize)
        ensures
            r == self@.patience,
    {
        self.patience
    }

    /// The number of epochs that a reduction is followed by without counting.
    pub fn cooldown(&self) -> (r: usize)
        ensures
            r == self@.cooldown,
    {
        self.cooldown
    }
}

} // verus!
