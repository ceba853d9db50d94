use lr_schedulers::horizon::Horizon;

fn saturation_sequence(total_iters: usize, init_step: usize, n: usize) -> Vec<bool> {
    let mut clock = Horizon::new(total_iters, init_step);
    let mut out = Vec::new();
    for _ in 0..n {
        out.push(clock.is_saturated());
        clock.step();
    }
    out
}

fn elapsed_sequence(total_iters: usize, init_step: usize, n: usize) -> Vec<usize> {
    let mut clock = Horizon::new(total_iters, init_step);
    let mut out = Vec::new();
    for _ in 0..n {
        out.push(clock.elapsed());
        clock.step();
    }
    out
}

#[test]
fn constant_factor_applies_for_two_steps() {
    // The factor applies while the horizon is not reached: 0.05, 0.05, then 0.5.
    assert_eq!(saturation_sequence(2, 0, 5), vec![false, false, true, true, true]);
}

#[test]
fn constant_early_and_late_horizons() {
    assert_eq!(saturation_sequence(1, 0, 5), vec![false, true, true, true, true]);
    assert_eq!(saturation_sequence(4, 0, 5), vec![false, false, false, false, true]);
    assert_eq!(saturation_sequence(10, 0, 5), vec![false; 5]);
}

#[test]
fn zero_horizon_is_saturated_from_the_start() {
    assert_eq!(saturation_sequence(0, 0, 5), vec![true; 5]);
    assert_eq!(saturation_sequence(0, 2, 3), vec![true; 3]);
    assert_eq!(elapsed_sequence(0, 0, 3), vec![0, 0, 0]);
}

#[test]
fn linear_progress_clamps_at_total() {
    // start 2.0, end 0.5, total 2: the rates 2.0, 1.25, 0.5, 0.5, 0.5 come from these.
    assert_eq!(elapsed_sequence(2, 0, 5), vec![0, 1, 2, 2, 2]);
    assert_eq!(saturation_sequence(2, 0, 5), vec![false, false, true, true, true]);
}

#[test]
fn polynomial_progress_over_five_steps() {
    // 1 - elapsed / 5: 1.0, 0.8, 0.6, 0.4, 0.2, then 0 from the horizon on.
    assert_eq!(elapsed_sequence(5, 0, 8), vec![0, 1, 2, 3, 4, 5, 5, 5]);
    assert_eq!(
        saturation_sequence(5, 0, 8),
        vec![false, false, false, false, false, true, true, true]
    );
}

#[test]
fn horizon_start_before_on_and_after_total() {
    assert_eq!(saturation_sequence(2, 1, 4), vec![false, true, true, true]);
    assert_eq!(saturation_sequence(2, 2, 3), vec![true, true, true]);
    assert_eq!(saturation_sequence(2, 3, 2), vec![true, true]);
    assert_eq!(elapsed_sequence(5, 10, 2), vec![5, 5]);
}

#[test]
fn horizon_resume_matches_replay() {
    for k in 0..8 {
        let mut replayed = Horizon::new(5, 0);
        for _ in 0..k {
            replayed.step();
        }
        let resumed = Horizon::new(5, k);
        assert_eq!(replayed.step_count(), resumed.step_count());
        assert_eq!(replayed.is_saturated(), resumed.is_saturated());
        assert_eq!(replayed.elapsed(), resumed.elapsed());
    }
}

#[test]
fn horizon_queries_are_repeatable() {
    let mut clock = Horizon::new(3, 1);
    assert_eq!(clock.elapsed(), clock.elapsed());
    assert_eq!(clock.is_saturated(), clock.is_saturated());
    clock.step();
    assert_eq!(clock.step_count(), 2);
    assert_eq!(clock.total_iters(), 3);
}
