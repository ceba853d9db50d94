//! Learning-rate schedules driven by an integer step counter.
//!
//! Each schedule here keeps the discrete part of its state: how many steps
//! have passed, which period, cycle or phase the counter stands in, and how
//! far into it. A floating-point rate is a closed-form function of what these
//! types report; the laws that the counters obey are proved below each type.

pub mod horizon;
pub mod onecycle;
pub mod reduce_lr_on_plateau;
pub mod cosine_annealing_warm_restarts;
pub mod cyclic;
pub mod multistep;
pub mod step;
pub mod cosine_annealing;
