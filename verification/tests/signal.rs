use loopback_selftest::signal::TickSignal;

#[test]
fn signal_is_clear_at_boot() {
    let signal = TickSignal::new();
    assert!(!signal.is_raised());
}

#[test]
fn raise_sets_the_flag() {
    let mut signal = TickSignal::new();
    signal.raise();
    assert!(signal.is_raised());
}

#[test]
fn take_reads_and_clears_in_one_step() {
    let mut signal = TickSignal::new();
    signal.raise();
    assert!(signal.take());
    assert!(!signal.is_raised());
    assert!(!signal.take());
}

#[test]
fn take_on_a_clear_flag_reports_nothing() {
    let mut signal = TickSignal::new();
    assert!(!signal.take());
    assert!(!signal.is_raised());
}

#[test]
fn two_raises_before_a_take_count_once() {
    let mut signal = TickSignal::new();
    signal.raise();
    signal.raise();
    assert!(signal.take());
    assert!(!signal.take());
}

#[test]
fn is_raised_does_not_consume() {
    let mut signal = TickSignal::new();
    signal.raise();
    assert!(signal.is_raised());
    assert!(signal.is_raised());
    assert!(signal.take());
}
