use sidecar_control::config::Settings;
use sidecar_control::supervisor::{
    best_effort_stop, sidecar_env, start_backend, stop_backend, Escalation, SidecarHandle,
    SidecarState, StartPlan, StopAction, StopOutcome, StopPhase, STOP_GRACE_PROBES,
    STOP_PROBE_INTERVAL_MS,
};

#[test]
fn stop_with_no_recorded_handle_is_a_no_op() {
    let mut state = SidecarState::new();
    let started = stop_backend(&mut state, false);
    assert!(started.is_none());
    assert!(state.child.is_none());
}

#[test]
fn stop_in_external_backend_mode_touches_nothing() {
    let mut state = SidecarState::new();
    state.record_child(SidecarHandle { pid: 41 });
    let started = stop_backend(&mut state, true);
    assert!(started.is_none());
    assert_eq!(state.child, Some(SidecarHandle { pid: 41 }));
}

#[test]
fn stop_takes_the_handle_exactly_once() {
    let mut state = SidecarState::new();
    state.record_child(SidecarHandle { pid: 4242 });
    let first = stop_backend(&mut state, false);
    let second = stop_backend(&mut state, false);
    assert!(first.is_some());
    assert_eq!(first.unwrap().pid, 4242);
    assert!(second.is_none());
    assert!(state.child.is_none());
}

#[test]
fn escalation_ends_best_effort_when_the_signal_cannot_be_sent() {
    let mut e = Escalation::begin(7);
    let a = e.term_sent(false);
    assert_eq!(a, StopAction::Finished { outcome: StopOutcome::SignalFailed });
    assert_eq!(e.phase, StopPhase::Done);
}

#[test]
fn escalation_ends_gracefully_when_the_process_exits() {
    let mut e = Escalation::begin(7);
    let a = e.term_sent(true);
    assert_eq!(a, StopAction::SleepAndProbe { pid: 7, delay_ms: STOP_PROBE_INTERVAL_MS });
    let a = e.probed(true);
    assert_eq!(a, StopAction::SleepAndProbe { pid: 7, delay_ms: STOP_PROBE_INTERVAL_MS });
    let a = e.probed(false);
    assert_eq!(a, StopAction::Finished { outcome: StopOutcome::Graceful });
    assert_eq!(e.phase, StopPhase::Done);
}

#[test]
fn escalation_kills_only_after_the_whole_grace_window() {
    let mut e = Escalation::begin(9);
    let mut a = e.term_sent(true);
    let mut probes: u64 = 0;
    while let StopAction::SleepAndProbe { pid, delay_ms } = a {
        assert_eq!(pid, 9);
        assert_eq!(delay_ms, STOP_PROBE_INTERVAL_MS);
        a = e.probed(true);
        probes += 1;
    }
    assert_eq!(probes, STOP_GRACE_PROBES);
    assert_eq!(a, StopAction::SendKill { pid: 9 });
    assert_eq!(e.phase, StopPhase::Done);
    // the grace window is two seconds in total
    assert_eq!(probes * STOP_PROBE_INTERVAL_MS, 2000);
}

#[test]
fn fallback_stop_is_one_kill_request() {
    assert_eq!(best_effort_stop(12), StopAction::SendKill { pid: 12 });
}

#[test]
fn recording_a_child_replaces_the_record() {
    let mut state = SidecarState::new();
    state.record_child(SidecarHandle { pid: 1 });
    state.record_child(SidecarHandle { pid: 2 });
    assert_eq!(state.child, Some(SidecarHandle { pid: 2 }));
}

#[test]
fn sidecar_environment_carries_data_dir_host_and_port() {
    let settings =
        Settings::from_parts(Some("0.0.0.0".to_string()), Some("9000".to_string()), None, None, None)
            .unwrap();
    let env = sidecar_env(&settings, "/data/app");
    assert_eq!(env.data_dir, "/data/app");
    assert_eq!(env.host, "0.0.0.0");
    assert_eq!(env.port, "9000");
}

#[test]
fn start_plan_skips_the_spawn_with_an_external_backend() {
    let settings = Settings::from_parts(None, None, None, None, None).unwrap();
    assert!(matches!(start_backend(&settings, true, "."), StartPlan::UseExternalBackend));
}

#[test]
fn start_plan_spawns_the_sidecar_otherwise() {
    let settings = Settings::from_parts(None, None, None, None, None).unwrap();
    match start_backend(&settings, false, "/data") {
        StartPlan::SpawnSidecar(env) => {
            assert_eq!(env.data_dir, "/data");
            assert_eq!(env.host, "127.0.0.1");
            assert_eq!(env.port, "1430");
        }
        StartPlan::UseExternalBackend => panic!("expected a spawn"),
    }
}
