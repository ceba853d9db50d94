use lr_schedulers::reduce_lr_on_plateau::PlateauCounter;

fn decisions(counter: &mut PlateauCounter, improved: &[bool]) -> Vec<bool> {
    improved.iter().map(|&i| counter.observe(i)).collect()
}

#[test]
fn plateau_reduces_after_patience() {
    // Losses 1.0, 0.8, 0.85, 0.82, 0.81 against an absolute threshold of 0.001.
    let mut counter = PlateauCounter::new(2, 0);
    assert!(!counter.observe(true));
    assert!(!counter.observe(true));
    assert!(!counter.observe(false));
    assert_eq!(counter.num_bad_epochs(), 1);
    assert!(counter.observe(false));
    assert_eq!(counter.num_bad_epochs(), 0);
    assert!(!counter.observe(false));
    assert_eq!(counter.num_bad_epochs(), 1);
}

#[test]
fn plateau_max_mode_patience_three() {
    let mut counter = PlateauCounter::new(3, 0);
    assert_eq!(decisions(&mut counter, &[true, true, false, false, false]), vec![
        false, false, false, false, true
    ]);
}

#[test]
fn plateau_without_cooldown_reduces_again() {
    let mut counter = PlateauCounter::new(1, 0);
    assert_eq!(decisions(&mut counter, &[true, false, false]), vec![false, true, true]);
}

#[test]
fn plateau_cooldown_holds_off_reductions() {
    let mut counter = PlateauCounter::new(1, 2);
    assert_eq!(decisions(&mut counter, &[true, false]), vec![false, true]);
    assert!(counter.in_cooldown());
    assert_eq!(counter.cooldown_counter(), 2);
    assert!(!counter.observe(false));
    assert_eq!(counter.num_bad_epochs(), 0);
    assert!(!counter.observe(false));
    assert!(!counter.in_cooldown());
    assert!(counter.observe(false));
}

#[test]
fn plateau_zero_patience_reduces_on_first_bad_epoch() {
    let mut counter = PlateauCounter::new(0, 0);
    let seen = decisions(&mut counter, &[true, false, true, false]);
    assert_eq!(seen, vec![false, true, false, true]);
}

#[test]
fn plateau_improvement_resets_count() {
    let mut counter = PlateauCounter::new(3, 0);
    assert_eq!(decisions(&mut counter, &[true, false, false]), vec![false, false, false]);
    assert_eq!(counter.num_bad_epochs(), 2);
    assert!(!counter.observe(true));
    assert_eq!(counter.num_bad_epochs(), 0);
    assert_eq!(decisions(&mut counter, &[false, false, false]), vec![false, false, true]);
    assert_eq!((counter.patience(), counter.cooldown()), (3, 0));
}
