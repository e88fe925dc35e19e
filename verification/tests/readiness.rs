use orchestrator::poll::{run_poll, CheckOutcome, PollGate, PollVerdict};

#[test]
fn poll_returns_true_when_a_check_is_ready_within_budget() {
    let script = vec![
        CheckOutcome::NotReady,
        CheckOutcome::NotReady,
        CheckOutcome::Ready,
    ];
    // Three checks at 0, 5 and 10 seconds fit a 30-second deadline.
    assert_eq!(run_poll(&script, 5, 30), (true, 3));
}

#[test]
fn poll_returns_false_when_the_deadline_passes_first() {
    let script = vec![
        CheckOutcome::NotReady,
        CheckOutcome::NotReady,
        CheckOutcome::NotReady,
        CheckOutcome::Ready,
    ];
    // The fourth check would come at 30 seconds, past the 30-second deadline.
    assert_eq!(run_poll(&script, 10, 30), (false, 3));
}

#[test]
fn poll_returns_false_when_checks_never_succeed() {
    let script = vec![CheckOutcome::NotReady, CheckOutcome::NotReady];
    assert_eq!(run_poll(&script, 1, 100).0, false);
}

#[test]
fn poll_stops_at_once_on_a_failed_check() {
    let script = vec![
        CheckOutcome::NotReady,
        CheckOutcome::Failed,
        CheckOutcome::Ready,
    ];
    // The failure at the second check ends the poll without the third.
    assert_eq!(run_poll(&script, 1, 1000), (false, 2));
}

#[test]
fn poll_with_zero_timeout_never_invokes_check() {
    let script = vec![CheckOutcome::Ready];
    assert_eq!(run_poll(&script, 5, 0), (false, 0));
}

#[test]
fn poll_state_decides_each_outcome() {
    let mut gate = PollGate::new(5, 30);
    assert!(gate.should_check());
    assert!(matches!(gate.on_check(CheckOutcome::NotReady), PollVerdict::Sleep));
    assert_eq!(gate.elapsed, 5);
    assert!(matches!(gate.on_check(CheckOutcome::Ready), PollVerdict::Ready));
    assert!(matches!(gate.on_check(CheckOutcome::Failed), PollVerdict::Failed));

    let zero = PollGate::new(5, 0);
    assert!(!zero.should_check());
}
