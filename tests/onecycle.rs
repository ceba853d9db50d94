use lr_schedulers::onecycle::{OneCycleClock, Phase, PhasePoint};

fn point_at(clock: &mut OneCycleClock, step: usize) -> PhasePoint {
    while clock.step_count() < step {
        clock.step();
    }
    clock.position()
}

fn pp(phase: Phase, done: usize, len: usize) -> PhasePoint {
    PhasePoint { phase, done, len }
}

#[test]
fn onecycle_two_phase_lengths_and_points() {
    let mut clock = OneCycleClock::new_two_phase(10, 3);
    assert_eq!(
        (clock.warmup_steps(), clock.annealing_steps(), clock.final_annealing_steps()),
        (3, 7, 0)
    );
    assert_eq!(clock.total_steps(), 10);
    assert_eq!(point_at(&mut clock, 0), pp(Phase::Warmup, 0, 3));
    assert_eq!(point_at(&mut clock, 3), pp(Phase::Warmup, 3, 3));
    assert_eq!(point_at(&mut clock, 4), pp(Phase::Annealing, 1, 7));
    assert_eq!(point_at(&mut clock, 9), pp(Phase::Annealing, 6, 7));
    assert_eq!(point_at(&mut clock, 10), pp(Phase::Finished, 1, 1));
    assert_eq!(point_at(&mut clock, 25), pp(Phase::Finished, 1, 1));
}

#[test]
fn onecycle_three_phase_points() {
    let mut clock = OneCycleClock::new_three_phase(12, 3, 4);
    assert_eq!(clock.final_annealing_steps(), 5);
    assert_eq!(point_at(&mut clock, 2), pp(Phase::Warmup, 2, 3));
    assert_eq!(point_at(&mut clock, 7), pp(Phase::Annealing, 4, 4));
    assert_eq!(point_at(&mut clock, 8), pp(Phase::FinalAnnealing, 1, 5));
    assert_eq!(point_at(&mut clock, 11), pp(Phase::FinalAnnealing, 4, 5));
    assert_eq!(point_at(&mut clock, 12), pp(Phase::Finished, 1, 1));
}

#[test]
fn onecycle_zero_warmup_starts_at_peak() {
    let mut clock = OneCycleClock::new_two_phase(10, 0);
    assert_eq!(point_at(&mut clock, 0), pp(Phase::Warmup, 1, 1));
    assert_eq!(point_at(&mut clock, 1), pp(Phase::Annealing, 1, 10));
}

#[test]
fn onecycle_very_short_cycle() {
    let mut clock = OneCycleClock::new_two_phase(2, 1);
    assert_eq!(point_at(&mut clock, 0), pp(Phase::Warmup, 0, 1));
    assert_eq!(point_at(&mut clock, 1), pp(Phase::Warmup, 1, 1));
    assert_eq!(point_at(&mut clock, 2), pp(Phase::Finished, 1, 1));
}

#[test]
fn onecycle_empty_annealing_counts_as_complete() {
    let mut clock = OneCycleClock::new_three_phase(4, 2, 0);
    assert_eq!(point_at(&mut clock, 2), pp(Phase::Warmup, 2, 2));
    assert_eq!(point_at(&mut clock, 3), pp(Phase::FinalAnnealing, 1, 2));
}
