use trdelnik::Error;
use trdelnik::complete_start;
use trdelnik::lifecycle::LocalnetEvent;
use trdelnik::lifecycle::LocalnetState;
use trdelnik::lifecycle::lifecycle_step;
use trdelnik::stop_decision;

#[test]
fn ready_probe_confirms_the_start() {
    assert!(complete_start(true).is_ok());
}

#[test]
fn unready_probe_is_localnet_not_running() {
    assert_eq!(complete_start(false), Err(Error::LocalnetIsNotRunning));
}

#[test]
fn live_probe_after_kill_is_still_running_and_keeps_the_ledger() {
    let r = stop_decision(true);
    assert!(matches!(r, Err(Error::LocalnetIsStillRunning)));
    let (state, delete_ledger) =
        lifecycle_step(LocalnetState::Stopping, LocalnetEvent::LivenessProbe { running: true });
    assert_eq!(state, LocalnetState::StopFailed);
    assert!(!delete_ledger);
}

#[test]
fn dead_probe_after_kill_confirms_stop_and_deletes_the_ledger() {
    assert!(stop_decision(false).is_ok());
    let (state, delete_ledger) =
        lifecycle_step(LocalnetState::Stopping, LocalnetEvent::LivenessProbe { running: false });
    assert_eq!(state, LocalnetState::Stopped);
    assert!(delete_ledger);
}

#[test]
fn instant_start_then_stop_never_enters_an_error_state() {
    let (s1, d1) = lifecycle_step(LocalnetState::NotStarted, LocalnetEvent::NodeSpawned);
    let (s2, d2) = lifecycle_step(s1, LocalnetEvent::ReadyProbe { ready: true });
    let (s3, d3) = lifecycle_step(s2, LocalnetEvent::KillRequested);
    let (s4, d4) = lifecycle_step(s3, LocalnetEvent::LivenessProbe { running: false });
    assert_eq!(s1, LocalnetState::Starting);
    assert_eq!(s2, LocalnetState::Running);
    assert_eq!(s3, LocalnetState::Stopping);
    assert_eq!(s4, LocalnetState::Stopped);
    assert!(!d1 && !d2 && !d3);
    assert!(d4);
}

#[test]
fn failed_start_probe_enters_start_failed() {
    let (state, delete_ledger) =
        lifecycle_step(LocalnetState::Starting, LocalnetEvent::ReadyProbe { ready: false });
    assert_eq!(state, LocalnetState::StartFailed);
    assert!(!delete_ledger);
}

#[test]
fn meaningless_events_leave_the_state_unchanged() {
    let (state, delete_ledger) =
        lifecycle_step(LocalnetState::Stopped, LocalnetEvent::KillRequested);
    assert_eq!(state, LocalnetState::Stopped);
    assert!(!delete_ledger);
}
