//! The position of a cyclical schedule in its triangular wave, and the term
//! that scales the wave's amplitude.
use vstd::prelude::*;

verus! {

/// How the amplitude of the wave is scaled when no custom function is given.
#[derive(Clone, Copy, Debug, PartialEq, Eq, Structural)]
pub enum Mode {
    /// Always the full amplitude.
    Triangular,
    /// The amplitude halves with every cycle.
    Triangular2,
    /// The amplitude is multiplied by `gamma` at every step.
    ExpRange,
}

/// What a custom scale function is applied to.
#[derive(Clone, Copy, Debug, PartialEq, Eq, Structural)]
pub enum ScaleMode {
    /// The cycle number, counted from one.
    Cycle,
    /// The step within the current cycle, counted from zero.
    Iterations,
}

/// The factor that scales the amplitude at a step, in terms that the caller
/// evaluates.
#[derive(Clone, Copy, Debug, PartialEq, Eq, Structural)]
pub enum ScaleTerm {
    /// A factor of one.
    Unit,
    /// `1 / 2^k`.
    Halved(usize),
    /// `gamma^k`.
    GammaPower(usize),
    /// The custom scale function applied to the cycle number `index + 1`.
    CustomOfCycle(usize),
    /// The custom scale function applied to this step within the cycle.
    CustomOfIteration(usize),
}

/// Where a step stands in the wave. The wave's height is `done / len` on the
/// rising side and `1 - done / len` on the falling side.
#[derive(Clone, Copy, Debug, PartialEq, Eq)]
pub struct CyclePoint {
    /// The cycle, counted from zero.
    pub cycle_index: usize,
    /// The step within the cycle, counted from zero.
    pub in_cycle: usize,
    pub rising: bool,
    pub done: usize,
    pub len: usize,
}

/// The abstract state of a [`CyclicClock`].
pub struct CyclicState {
    pub step_size_up: nat,
    pub step_size_down: nat,
    pub mode: Mode,
    pub scale_mode: Option<ScaleMode>,
    pub step_count: nat,
}

impl CyclicState {
    /// The number of steps in one cycle.
    pub open spec fn cycle_len(self) -> nat {
        self.step_size_up + self.step_size_down
    }

    /// The cycle of the current step, counted from zero.
    pub open spec fn cycle_index(self) -> nat {
        self.step_count / self.cycle_len()
    }

    /// The current step within its cycle.
    pub open spec fn in_cycle(self) -> nat {
        self.step_count % self.cycle_len()
    }

    /// The wave rises up to and including step `step_size_up` of a cycle.
    pub open spec fn rising(self) -> bool {
        self.in_cycle() <= self.step_size_up
    }

    /// The steps taken on the current side of the wave.
    pub open spec fn done(self) -> nat {
        if self.rising() {
            self.in_cycle()
        } else {
            (self.in_cycle() - self.step_size_up) as nat
        }
    }

    /// The length of the current side of the wave.
    pub open spec fn side_len(self) -> nat {
        if self.rising() {
            self.step_size_up
        } else {
            self.step_size_down
        }
    }

    /// The amplitude's scale at the current step: a custom function's
    /// argument where one is given, else the term that the mode calls for.
    pub open spec fn scale_term(self) -> ScaleTerm {
        match self.scale_mode {
            Some(ScaleMode::Cycle) => ScaleTerm::CustomOfCycle(self.cycle_index() as usize),
            Some(ScaleMode::Iterations) => ScaleTerm::CustomOfIteration(self.in_cycle() as usize),
            None => match self.mode {
                Mode::Triangular => ScaleTerm::Unit,
                Mode::Triangular2 => ScaleTerm::Halved(self.cycle_index() as usize),
                Mode::ExpRange => ScaleTerm::GammaPower(self.step_count as usize),
            },
        }
    }
}

/// The step counter of a cyclical schedule, with the shape of its wave.
#[derive(Debug)]
pub struct CyclicClock {
    step_size_up: usize,
    step_size_down: usize,
    mode: Mode,
    scale_mode: Option<ScaleMode>,
    step_count: usize,
}

impl View for CyclicClock {
    type V = CyclicState;

    closed spec fn view(&self) -> CyclicState {
        CyclicState {
            step_size_up: self.step_size_up as nat,
            step_size_down: self.step_size_down as nat,
            mode: self.mode,
            scale_mode: self.scale_mode,
            step_count: self.step_count as nat,
        }
    }
}

impl Clone for CyclicClock {
    /// A copy in the same state.
    fn clone(&self) -> (r: CyclicClock)
        ensures
            r@ == self@,
    {
        proof {
            use_type_invariant(self);
        }
        CyclicClock {
            step_size_up: self.step_size_up,
            step_size_down: self.step_size_down,
            mode: self.mode,
            scale_mode: self.scale_mode,
            step_count: self.step_count,
        }
    }
}

impl CyclicClock {
    #[verifier::type_invariant]
    spec fn cycle_fits(self) -> bool {
        0 < self.step_size_up + self.step_size_down <= usize::MAX
    }

    /// A clock at step zero whose wave rises for `step_size_up` steps and
    /// falls for `step_size_down` steps (as many as it rises where none is
    /// given). `scale_mode` tells what a custom scale function is applied
    /// to, where the caller has one.
    pub fn new(
        step_size_up: usize,
        step_size_down: Option<usize>,
        mode: Mode,
        scale_mode: Option<ScaleMode>,
    ) -> (r: CyclicClock)
        requires
            0 < step_size_up + match step_size_down {
                Some(d) => d,
                None => step_size_up,
            } <= usize::MAX,
        ensures
            r@ == (CyclicState {
                step_size_up: step_size_up as nat,
                step_size_down: match step_size_down {
                    Some(d) => d as nat,
                    None => step_size_up as nat,
                },
                mode,
                scale_mode,
                step_count: 0,
            }),
    {
        let step_size_down = match step_size_down {
            Some(d) => d,
            None => step_size_up,
        };
        CyclicClock { step_size_up, step_size_down, mode, scale_mode, step_count: 0 }
    }

    /// Advances the clock by one step.
    pub fn step(&mut self)
        requires
            old(self)@.step_count < usize::MAX,
        ensures
            final(self)@ == (CyclicState { step_count: old(self)@.step_count + 1, ..old(self)@ }),
    {
        proof {
            use_type_invariant(&*self);
        }
        self.step_count = self.step_count + 1;
    }

    /// The number of steps taken.
    pub fn step_count(&self) -> (r: usize)
        ensures
            r == self@.step_count,
    {
        self.step_count
    }

    /// The length of the rising side of the wave.
    pub fn step_size_up(&self) -> (r: usize)
        ensures
            r == self@.step_size_up,
    {
        self.step_size_up
    }

    /// The length of the falling side of the wave.
    pub fn step_size_down(&self) -> (r: usize)
        ensures
            r == self@.step_size_down,
    {
        self.step_size_down
    }

    /// The scaling mode.
    pub fn mode(&self) -> (r: Mode)
        ensures
            r == self@.mode,
    {
        self.mode
    }

    /// What a custom scale function is applied to, if there is one.
    pub fn scale_mode(&self) -> (r: Option<ScaleMode>)
        ensures
            r == self@.scale_mode,
    {
        self.scale_mode
    }

    /// The position of the current step in the wave. Off the rising side the
    /// side's length is never zero and the steps taken stay short of it.
    pub fn position(&self) -> (r: CyclePoint)
        ensures
            r.cycle_index == self@.cycle_index(),
            r.in_cycle == self@.in_cycle(),
            r.rising == self@.rising(),
            r.done == self@.done(),
            r.len == self@.side_len(),
            r.done <= r.len,
            !r.rising ==> r.done < r.len,
    {
        proof {
            use_type_invariant(self);
        }
        let cycle_len = self.step_size_up + self.step_size_down;
        let cycle_index = self.step_count / cycle_len;
        let in_cycle = self.step_count % cycle_len;
        if in_cycle <= self.step_size_up {
            CyclePoint {
                cycle_index,
                in_cycle,
                rising: true,
                done: in_cycle,
                len: self.step_size_up,
            }
        } else {
            CyclePoint {
                cycle_index,
                in_cycle,
                rising: false,
                done: in_cycle - self.step_size_up,
                len: self.step_size_down,
            }
        }
    }

    /// The term that scales the amplitude at the current step.
    pub fn scale_term(&self) -> (r: ScaleTerm)
        ensures
            r == self@.scale_term(),
    {
        proof {
            use_type_invariant(self);
        }
        let cycle_len = self.step_size_up + self.step_size_down;
        match self.scale_mode {
            Some(ScaleMode::Cycle) => ScaleTerm::CustomOfCycle(self.step_count / cycle_len),
            Some(ScaleMode::Iterations) => ScaleTerm::CustomOfIteration(
                self.step_count % cycle_len,
            ),
            None => match self.mode {
                Mode::Triangular => ScaleTerm::Unit,
                Mode::Triangular2 => ScaleTerm::Halved(self.step_count / cycle_len),
                Mode::ExpRange => ScaleTerm::GammaPower(self.step_count),
            },
        }
    }
}

} // verus!
