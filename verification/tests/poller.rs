use sidecar_control::poller::{
    wait_for_backend, HealthPoller, PollResult, ProbeOutcome,
};

#[test]
fn ready_on_first_200_after_one_attempt() {
    let script = vec![ProbeOutcome::Status(200)];
    let report = wait_for_backend(&script, 30_000, 200);
    assert_eq!(report.result, PollResult::Ready);
    assert_eq!(report.attempts, 1);
}

#[test]
fn non_200_statuses_and_transport_errors_alike_keep_polling() {
    let script = vec![
        ProbeOutcome::Status(503),
        ProbeOutcome::TransportError,
        ProbeOutcome::Status(404),
        ProbeOutcome::Status(200),
    ];
    let report = wait_for_backend(&script, 30_000, 200);
    assert_eq!(report.result, PollResult::Ready);
    assert_eq!(report.attempts, 4);
}

#[test]
fn times_out_with_at_least_timeout_over_interval_attempts() {
    // timeout 1000 ms, interval 200 ms: five attempts fit exactly
    let script = vec![ProbeOutcome::TransportError; 10];
    let report = wait_for_backend(&script, 1000, 200);
    assert_eq!(report.result, PollResult::TimedOut);
    assert_eq!(report.attempts, 5);
    assert!(report.attempts >= 1000 / 200);
}

#[test]
fn uneven_interval_rounds_attempts_up() {
    // timeout 1000 ms, interval 300 ms: attempts at 0, 300, 600 and 900 ms
    let script = vec![ProbeOutcome::TransportError; 10];
    let report = wait_for_backend(&script, 1000, 300);
    assert_eq!(report.result, PollResult::TimedOut);
    assert_eq!(report.attempts, 4);
    assert!(report.attempts >= 1000 / 300);
}

#[test]
fn success_after_the_deadline_is_not_seen() {
    // the only 200 sits at attempt index 5, but only five attempts fit
    let mut script = vec![ProbeOutcome::TransportError; 5];
    script.push(ProbeOutcome::Status(200));
    let report = wait_for_backend(&script, 1000, 200);
    assert_eq!(report.result, PollResult::TimedOut);
    assert_eq!(report.attempts, 5);
}

#[test]
fn exhausted_script_counts_as_never_ready() {
    let script = Vec::new();
    let report = wait_for_backend(&script, 600, 200);
    assert_eq!(report.result, PollResult::TimedOut);
    assert_eq!(report.attempts, 3);
}

#[test]
fn zero_timeout_makes_no_attempt() {
    let script = vec![ProbeOutcome::Status(200)];
    let report = wait_for_backend(&script, 0, 200);
    assert_eq!(report.result, PollResult::TimedOut);
    assert_eq!(report.attempts, 0);
}

#[test]
fn poller_charges_one_interval_per_failed_probe() {
    let mut poller = HealthPoller::new(1000, 400);
    assert!(poller.should_attempt());
    assert!(!poller.observe(&ProbeOutcome::Status(500)));
    assert_eq!(poller.waited_ms, 400);
    assert!(poller.should_attempt());
    assert!(!poller.observe(&ProbeOutcome::TransportError));
    assert_eq!(poller.waited_ms, 800);
    assert!(poller.should_attempt());
    assert!(!poller.observe(&ProbeOutcome::TransportError));
    assert_eq!(poller.waited_ms, 1200);
    assert!(!poller.should_attempt());
}

#[test]
fn poller_resolves_ready_without_charging_time() {
    let mut poller = HealthPoller::new(1000, 400);
    assert!(poller.observe(&ProbeOutcome::Status(200)));
    assert_eq!(poller.waited_ms, 0);
}
