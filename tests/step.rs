use lr_schedulers::step::StepClock;

fn decay_sequence(step_size: usize, init_step: usize, n: usize) -> Vec<usize> {
    let mut clock = StepClock::new(step_size, init_step);
    let mut out = Vec::new();
    for _ in 0..n {
        out.push(clock.decays());
        clock.step();
    }
    out
}

#[test]
fn step_decays_every_three_steps() {
    // gamma 0.1: 1.0, 1.0, 1.0, 0.1, 0.1, 0.1, 0.01, 0.01, 0.01, 0.001.
    assert_eq!(decay_sequence(3, 0, 10), vec![0, 0, 0, 1, 1, 1, 2, 2, 2, 3]);
}

#[test]
fn step_start_midway_and_at_boundary() {
    assert_eq!(decay_sequence(3, 2, 5), vec![0, 1, 1, 1, 2]);
    assert_eq!(decay_sequence(3, 3, 5), vec![1, 1, 1, 2, 2]);
}

#[test]
fn step_size_one_decays_every_step() {
    assert_eq!(decay_sequence(1, 0, 5), vec![0, 1, 2, 3, 4]);
}

#[test]
fn step_large_size_and_late_start() {
    let seq = decay_sequence(100, 0, 101);
    assert!(seq[..100].iter().all(|&d| d == 0));
    assert_eq!(seq[100], 1);
    assert_eq!(decay_sequence(2, 7, 2), vec![3, 4]);
}

#[test]
fn step_resume_matches_replay() {
    for k in 0..10 {
        let mut replayed = StepClock::new(3, 0);
        for _ in 0..k {
            replayed.step();
        }
        let resumed = StepClock::new(3, k);
        assert_eq!(replayed.decays(), resumed.decays());
        assert_eq!(replayed.step_count(), resumed.step_count());
    }
    assert_eq!(StepClock::new(4, 0).step_size(), 4);
}
