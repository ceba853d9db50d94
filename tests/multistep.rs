use lr_schedulers::multistep::MilestoneClock;

fn passed_sequence(milestones: Vec<usize>, init_step: usize, n: usize) -> Vec<usize> {
    let mut clock = MilestoneClock::new(milestones, init_step);
    let mut out = Vec::new();
    for _ in 0..n {
        out.push(clock.passed());
        clock.step();
    }
    out
}

#[test]
fn milestones_basic() {
    assert_eq!(passed_sequence(vec![3, 7], 0, 10), vec![0, 0, 0, 1, 1, 1, 1, 2, 2, 2]);
    assert_eq!(passed_sequence(vec![2, 5, 8], 0, 10), vec![0, 0, 1, 1, 1, 2, 2, 2, 3, 3]);
}

#[test]
fn milestones_unsorted_input_is_sorted() {
    let clock = MilestoneClock::new(vec![7, 3, 10], 0);
    assert_eq!(clock.milestones(), &vec![3, 7, 10]);
    assert_eq!(passed_sequence(vec![7, 3, 10], 0, 11), vec![0, 0, 0, 1, 1, 1, 1, 2, 2, 2, 3]);
}

#[test]
fn milestones_repeated_entry_counts_twice() {
    let clock = MilestoneClock::new(vec![5, 3, 3], 0);
    assert_eq!(clock.milestones(), &vec![3, 3, 5]);
    assert_eq!(passed_sequence(vec![5, 3, 3], 2, 4), vec![0, 2, 2, 3]);
}

#[test]
fn milestones_empty_and_after_all() {
    assert_eq!(passed_sequence(vec![], 0, 10), vec![0; 10]);
    assert_eq!(passed_sequence(vec![2, 5], 10, 2), vec![2, 2]);
}

#[test]
fn milestones_start_at_and_after_milestone() {
    assert_eq!(passed_sequence(vec![3, 7], 3, 2), vec![1, 1]);
    assert_eq!(passed_sequence(vec![3, 7], 4, 5), vec![1, 1, 1, 2, 2]);
}

#[test]
fn milestones_resume_matches_replay() {
    for k in 0..12 {
        let mut replayed = MilestoneClock::new(vec![9, 2, 5], 0);
        for _ in 0..k {
            replayed.step();
        }
        let resumed = MilestoneClock::new(vec![9, 2, 5], k);
        assert_eq!(replayed.passed(), resumed.passed());
        assert_eq!(replayed.step_count(), resumed.step_count());
    }
}
