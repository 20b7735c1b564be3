//! The local network node's lifecycle: a state machine over observed
//! liveness, a move-only handle that owns the node process, and the
//! decisions that reconcile a kill request against an independent
//! readiness probe before any persisted state is deleted.

use vstd::prelude::*;
use crate::errors::Error;

verus! {

/// Relies on `tokio::process::Child`: the handle to the spawned network
/// node process, carried opaquely.
#[verifier::external_type_specification]
#[verifier::external_body]
pub struct ExChild(tokio::process::Child);

/// The lifecycle states of the network node, the two terminal error
/// states included.
#[derive(Clone, Copy, Debug, PartialEq, Eq, Structural)]
pub enum LocalnetState {
    NotStarted,
    Starting,
    Running,
    Stopping,
    Stopped,
    StartFailed,
    StopFailed,
}

/// The observable lifecycle events: the node process was spawned; the
/// waiting readiness probe answered after a start; a forceful kill was
/// requested; the immediate liveness probe answered after the kill.
#[derive(Clone, Copy, Debug, PartialEq, Eq, Structural)]
pub enum LocalnetEvent {
    NodeSpawned,
    ReadyProbe { ready: bool },
    KillRequested,
    LivenessProbe { running: bool },
}

/// The lifecycle transition relation.  An event that has no meaning in
/// the current state leaves the state unchanged.
pub open spec fn next_state(s: LocalnetState, e: LocalnetEvent) -> LocalnetState {
    match (s, e) {
        (LocalnetState::NotStarted, LocalnetEvent::NodeSpawned) => LocalnetState::Starting,
        (LocalnetState::Starting, LocalnetEvent::ReadyProbe { ready }) => if ready {
            LocalnetState::Running
        } else {
            LocalnetState::StartFailed
        },
        (LocalnetState::Running, LocalnetEvent::KillRequested) => LocalnetState::Stopping,
        (LocalnetState::Stopping, LocalnetEvent::LivenessProbe { running }) => if running {
            LocalnetState::StopFailed
        } else {
            LocalnetState::Stopped
        },
        _ => s,
    }
}

/// Whether taking one step deletes the ledger directory: only the
/// transition that confirms the node stopped does.
pub open spec fn step_deletes_ledger(s: LocalnetState, e: LocalnetEvent) -> bool {
    s is Stopping && e matches LocalnetEvent::LivenessProbe { running: false }
}

/// One step of the lifecycle state machine: the next state, and whether
/// the ledger directory is to be deleted on this step.
pub fn lifecycle_step(s: LocalnetState, e: LocalnetEvent) -> (r: (LocalnetState, bool))
    ensures
        r.0 == next_state(s, e),
        r.1 == step_deletes_ledger(s, e),
{
    match (s, e) {
        (LocalnetState::NotStarted, LocalnetEvent::NodeSpawned) => (LocalnetState::Starting, false),
        (LocalnetState::Starting, LocalnetEvent::ReadyProbe { ready }) => {
            if ready {
                (LocalnetState::Running, false)
            } else {
                (LocalnetState::StartFailed, false)
            }
        },
        (LocalnetState::Running, LocalnetEvent::KillRequested) => (LocalnetState::Stopping, false),
        (LocalnetState::Stopping, LocalnetEvent::LivenessProbe { running }) => {
            if running {
                (LocalnetState::StopFailed, false)
            } else {
                (LocalnetState::Stopped, true)
            }
        },
        _ => (s, false),
    }
}

/// The ledger directory is deleted on a step exactly when that step is the
/// liveness probe, after a kill, answering that the node no longer runs —
/// never while the probe still observes it alive — and that step always
/// confirms the `Stopped` state.
pub proof fn lemma_ledger_deleted_only_when_stopped(s: LocalnetState, e: LocalnetEvent)
    ensures
        step_deletes_ledger(s, e) ==> next_state(s, e) == LocalnetState::Stopped,
        step_deletes_ledger(LocalnetState::Stopping, (LocalnetEvent::LivenessProbe { running: false })),
        !step_deletes_ledger(LocalnetState::Stopping, (LocalnetEvent::LivenessProbe { running: true })),
{
}

/// A start that observes the node ready, followed immediately by a stop
/// whose probe observes it gone, walks `NotStarted`, `Starting`,
/// `Running`, `Stopping`, `Stopped`, entering neither error state.
pub proof fn lemma_clean_start_stop()
    ensures
        next_state(LocalnetState::NotStarted, LocalnetEvent::NodeSpawned)
            == LocalnetState::Starting,
        next_state(LocalnetState::Starting, (LocalnetEvent::ReadyProbe { ready: true }))
            == LocalnetState::Running,
        next_state(LocalnetState::Running, LocalnetEvent::KillRequested)
            == LocalnetState::Stopping,
        next_state(LocalnetState::Stopping, (LocalnetEvent::LivenessProbe { running: false }))
            == LocalnetState::Stopped,
{
}

/// The decision after the spawn: the waiting readiness probe's answer
/// either confirms the start or is the `LocalnetIsNotRunning` condition.
/// On failure the spawned process is intentionally left to the caller:
/// nothing here kills it.
pub fn complete_start(probe_ready: bool) -> (r: Result<(), Error>)
    ensures
        r is Ok <==> probe_ready,
        r is Err ==> r->Err_0 is LocalnetIsNotRunning,
        next_state(LocalnetState::Starting, (LocalnetEvent::ReadyProbe { ready: probe_ready }))
            == (if probe_ready {
            LocalnetState::Running
        } else {
            LocalnetState::StartFailed
        }),
{
    if probe_ready {
        Ok(())
    } else {
        Err(Error::LocalnetIsNotRunning)
    }
}

/// Permission to delete the ledger directory: only `stop_decision` grants
/// it, and only once the node is confirmed gone.
pub struct LedgerCleanup {
    confirmed_stopped: bool,
}

impl LedgerCleanup {
    /// Cleanup is granted only for a confirmed stop.
    pub closed spec fn wf(&self) -> bool {
        self.confirmed_stopped
    }
}

/// The decision after the kill request: the immediate, non-waiting
/// liveness probe's answer either confirms the stop — granting the
/// cleanup of the ledger directory — or is the `LocalnetIsStillRunning`
/// condition, in which case the ledger directory must not be touched.
pub fn stop_decision(probe_running: bool) -> (r: Result<LedgerCleanup, Error>)
    ensures
        r is Ok <==> !probe_running,
        r is Ok ==> r->Ok_0.wf(),
        r is Err ==> r->Err_0 is LocalnetIsStillRunning,
        next_state(LocalnetState::Stopping, (LocalnetEvent::LivenessProbe { running: probe_running }))
            == (if probe_running {
            LocalnetState::StopFailed
        } else {
            LocalnetState::Stopped
        }),
{
    if probe_running {
        Err(Error::LocalnetIsStillRunning)
    } else {
        Ok(LedgerCleanup { confirmed_stopped: true })
    }
}

/// Relies on `tokio::process::Child::start_kill`: sends the kill signal
/// without awaiting the process's exit, and reports only the signalling
/// failure, carried as its debug text.
#[verifier::external_body]
fn request_kill(process: &mut tokio::process::Child) -> (r: Result<(), Error>)
    ensures
        r is Err ==> r->Err_0 is IoError,
{
    match process.start_kill() {
        Ok(()) => Ok(()),
        Err(e) => Err(Error::IoError(format!("{e:?}"))),
    }
}

/// The handle returned by a confirmed start: the single owner of the
/// network node process.  It cannot be duplicated, and stopping consumes
/// it, so a stopped node cannot be stopped twice or used after the stop.
pub struct LocalnetHandle {
    solana_test_validator_process: tokio::process::Child,
}

impl LocalnetHandle {
    /// Wraps the spawned node process, once the readiness probe confirmed
    /// the start, in its unique owning handle.
    pub fn new(process: tokio::process::Child) -> Self {
        LocalnetHandle { solana_test_validator_process: process }
    }

    /// Consumes the handle and fires a forceful, non-blocking kill request
    /// at the owned node process.  Whether the process actually terminated
    /// is not trusted from this request: it is reconciled afterwards by an
    /// independent liveness probe, whose answer `stop_decision` judges.
    /// The only error here is the kill request's own I/O failure.
    pub fn stop(self) -> (r: Result<(), Error>)
        ensures
            r is Err ==> r->Err_0 is IoError,
    {
        let mut process = self.solana_test_validator_process;
        request_kill(&mut process)
    }
}

} // verus!
