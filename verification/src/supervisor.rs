use vstd::prelude::*;

verus! {

use vstd::string::StringExecFns;
use crate::config::Settings;
use crate::text::{dec_str, u64_to_string};

/// How many liveness probes the graceful grace window allows before the
/// supervisor escalates to a forceful kill.
pub const STOP_GRACE_PROBES: u64 = 20;

/// Milliseconds slept before each liveness probe of the grace window.
pub const STOP_PROBE_INTERVAL_MS: u64 = 100;

/// Ownership of one live sidecar process, recorded on a successful spawn
/// and taken exactly once on stop.
#[derive(PartialEq, Eq, Structural, Debug, Clone, Copy)]
pub struct SidecarHandle {
    pub pid: u32,
}

/// The supervisor's record of the sidecar: at most one live handle. In the
/// running application this record sits behind one exclusive lock, so the
/// take-once semantics below are what concurrent shutdown triggers see.
pub struct SidecarState {
    pub child: Option<SidecarHandle>,
}

/// The environment handed to the spawned sidecar process.
pub struct SidecarEnv {
    pub data_dir: String,
    pub host: String,
    pub port: String,
}

/// What application startup does about the backend: in the mode where the
/// backend runs externally nothing is spawned, otherwise the sidecar is
/// launched with the given environment. Either way the caller then gates
/// startup on the readiness poll.
pub enum StartPlan {
    UseExternalBackend,
    SpawnSidecar(SidecarEnv),
}

/// Where the stop escalation stands.
#[derive(PartialEq, Eq, Structural, Debug, Clone, Copy)]
pub enum StopPhase {
    /// The graceful termination signal is about to be sent.
    AwaitTermSend,
    /// Graceful signal sent; probing liveness through the grace window.
    Probing,
    /// The escalation has finished; nothing more to do.
    Done,
}

/// How a finished stop escalation ended.
#[derive(PartialEq, Eq, Structural, Debug, Clone, Copy)]
pub enum StopOutcome {
    /// The graceful signal could not be sent; cleanup stays best-effort.
    SignalFailed,
    /// The process exited within the grace window.
    Graceful,
    /// The process outlived the grace window and was killed forcefully.
    Forced,
}

/// The next thing the stop driver must do.
#[derive(PartialEq, Eq, Structural, Debug, Clone, Copy)]
pub enum StopAction {
    /// Sleep `delay_ms`, then probe whether the process is still alive.
    SleepAndProbe { pid: u32, delay_ms: u64 },
    /// Send the forceful kill signal; the escalation is then finished.
    SendKill { pid: u32 },
    /// Nothing more to do.
    Finished { outcome: StopOutcome },
}

/// The escalating termination sequence for one sidecar process: a graceful
/// signal, then liveness probes at a fixed short interval through a bounded
/// grace window, then a forceful kill only if the process is still alive.
/// The machine decides; the caller performs the signals, sleeps and probes
/// it asks for.
#[derive(PartialEq, Eq, Structural, Debug, Clone, Copy)]
pub struct Escalation {
    pub pid: u32,
    pub probes_done: u64,
    pub phase: StopPhase,
}

impl Escalation {
    pub open spec fn wf(self) -> bool {
        &&& self.probes_done <= STOP_GRACE_PROBES
        &&& (self.phase is Probing ==> self.probes_done < STOP_GRACE_PROBES)
        &&& (self.phase is AwaitTermSend ==> self.probes_done == 0)
    }

    /// Begins the escalation for the given process; the first step is to
    /// send the graceful termination signal.
    pub fn begin(pid: u32) -> (e: Escalation)
        ensures
            e.wf(),
            e.pid == pid,
            e.probes_done == 0,
            e.phase is AwaitTermSend,
    {
        Escalation { pid, probes_done: 0, phase: StopPhase::AwaitTermSend }
    }

    /// Records whether the graceful signal could be sent. A send failure
    /// ends the escalation as best-effort (logged, never fatal); a sent
    /// signal opens the grace window of sleep-and-probe rounds.
    pub fn term_sent(&mut self, ok: bool) -> (a: StopAction)
        requires
            old(self).wf(),
            old(self).phase is AwaitTermSend,
        ensures
            final(self).wf(),
            final(self).pid == old(self).pid,
            !ok ==> final(self).phase is Done && a == (StopAction::Finished {
                outcome: StopOutcome::SignalFailed,
            }),
            ok ==> final(self).phase is Probing && final(self).probes_done == 0 && a == (
            StopAction::SleepAndProbe { pid: old(self).pid, delay_ms: STOP_PROBE_INTERVAL_MS }),
    {
        if ok {
            self.phase = StopPhase::Probing;
            StopAction::SleepAndProbe { pid: self.pid, delay_ms: STOP_PROBE_INTERVAL_MS }
        } else {
            self.phase = StopPhase::Done;
            StopAction::Finished { outcome: StopOutcome::SignalFailed }
        }
    }

    /// Records one liveness probe. A dead process ends the escalation
    /// gracefully; a live one is probed again until the grace window's
    /// probes are spent, and only then is the forceful kill requested.
    pub fn probed(&mut self, alive: bool) -> (a: StopAction)
        requires
            old(self).wf(),
            old(self).phase is Probing,
        ensures
            final(self).wf(),
            final(self).pid == old(self).pid,
            !alive ==> final(self).phase is Done && a == (StopAction::Finished {
                outcome: StopOutcome::Graceful,
            }),
            alive ==> final(self).probes_done == old(self).probes_done + 1,
            alive && old(self).probes_done + 1 < STOP_GRACE_PROBES ==> final(self).phase
                is Probing && a == (StopAction::SleepAndProbe {
                pid: old(self).pid,
                delay_ms: STOP_PROBE_INTERVAL_MS,
            }),
            alive && old(self).probes_done + 1 == STOP_GRACE_PROBES ==> final(self).phase is Done
                && a == (StopAction::SendKill { pid: old(self).pid }),
    {
        if !alive {
            self.phase = StopPhase::Done;
            return StopAction::Finished { outcome: StopOutcome::Graceful };
        }
        self.probes_done = self.probes_done + 1;
        if self.probes_done < STOP_GRACE_PROBES {
            StopAction::SleepAndProbe { pid: self.pid, delay_ms: STOP_PROBE_INTERVAL_MS }
        } else {
            self.phase = StopPhase::Done;
            StopAction::SendKill { pid: self.pid }
        }
    }
}

/// The whole grace window is bounded: its probes never sleep more than
/// two seconds in total before the escalation resolves.
pub proof fn lemma_grace_window_bounded(e: Escalation)
    requires
        e.wf(),
    ensures
        e.probes_done * STOP_PROBE_INTERVAL_MS <= 2000,
{
}

/// On platforms without a graceful-then-forceful signal pair, stop is one
/// best-effort termination request with process-tree kill semantics.
pub fn best_effort_stop(pid: u32) -> (a: StopAction)
    ensures
        a == (StopAction::SendKill { pid }),
{
    StopAction::SendKill { pid }
}

/// What one stop call does to the supervisor's record: in the mode where
/// the backend runs externally it is untouched; otherwise the recorded
/// handle, if any, is taken (so any later caller finds none) and an
/// escalation for it begins; with no recorded handle the call changes
/// nothing and starts nothing.
pub open spec fn stop_transition(
    pre: SidecarState,
    post: SidecarState,
    started: Option<Escalation>,
    dev_mode: bool,
) -> bool {
    &&& (dev_mode ==> post.child == pre.child && started is None)
    &&& (!dev_mode ==> {
        &&& post.child is None
        &&& (started is Some <==> pre.child is Some)
        &&& (pre.child matches Some(h) ==> started == Some(Escalation::begin_spec(h.pid)))
    })
}

impl Escalation {
    /// The state `begin` constructs.
    pub open spec fn begin_spec(pid: u32) -> Escalation {
        Escalation { pid, probes_done: 0, phase: StopPhase::AwaitTermSend }
    }
}

impl SidecarState {
    /// A supervisor with nothing recorded: the backend counts as not
    /// running.
    pub fn new() -> (s: SidecarState)
        ensures
            s.child is None,
    {
        SidecarState { child: None }
    }

    /// Records the handle of a freshly spawned sidecar.
    pub fn record_child(&mut self, handle: SidecarHandle)
        ensures
            final(self).child == Some(handle),
    {
        self.child = Some(handle);
    }
}

/// Takes the recorded handle, if any, and begins its escalating
/// termination; idempotent, and a no-op both in the external-backend mode
/// and when no handle is recorded (already stopped, or never started).
/// Never an error. The returned escalation tells the caller what signals,
/// sleeps and probes to perform.
pub fn stop_backend(state: &mut SidecarState, dev_mode: bool) -> (r: Option<Escalation>)
    ensures
        stop_transition(*old(state), *final(state), r, dev_mode),
        old(state).child is None ==> final(state).child == old(state).child && r is None,
        r matches Some(e) ==> e.wf() && e.phase is AwaitTermSend,
{
    if dev_mode {
        return None;
    }
    let taken: Option<SidecarHandle> = state.child;
    state.child = None;
    match taken {
        Some(h) => Some(Escalation::begin(h.pid)),
        None => None,
    }
}

/// Two stop calls, serialized by the supervisor's lock, begin termination
/// at most once: whatever the first call returned, the handle is no longer
/// recorded, so the second call starts no escalation and raises no error.
/// This is what makes racing shutdown triggers (window close, tray quit,
/// termination signal) safe without any further deduplication.
pub proof fn lemma_stop_at_most_once(
    s0: SidecarState,
    s1: SidecarState,
    s2: SidecarState,
    r1: Option<Escalation>,
    r2: Option<Escalation>,
    dev1: bool,
    dev2: bool,
)
    requires
        stop_transition(s0, s1, r1, dev1),
        stop_transition(s1, s2, r2, dev2),
    ensures
        r1 is Some ==> r2 is None,
{
}

/// The environment for the spawned sidecar, derived from the settings:
/// the data directory it must use, and the host and port it must serve on
/// (the port in decimal, as the child reads it).
pub fn sidecar_env(settings: &Settings, data_dir: &str) -> (e: SidecarEnv)
    ensures
        e.data_dir@ == data_dir@,
        e.host@ == settings.host@,
        e.port@ == dec_str(settings.port as int),
{
    SidecarEnv {
        data_dir: String::from_str(data_dir),
        host: settings.host.clone(),
        port: u64_to_string(settings.port as u64),
    }
}

/// Decides what starting the backend does: in the external-backend mode
/// nothing is spawned and the caller polls the same health endpoint;
/// otherwise the sidecar is to be spawned with its derived environment.
/// The caller performs the spawn and records the resulting handle; a spawn
/// failure is fatal to startup and propagates.
pub fn start_backend(settings: &Settings, dev_mode: bool, data_dir: &str) -> (p: StartPlan)
    ensures
        dev_mode ==> p is UseExternalBackend,
        !dev_mode ==> (p matches StartPlan::SpawnSidecar(e) && e.data_dir@ == data_dir@ && e.host@
            == settings.host@ && e.port@ == dec_str(settings.port as int)),
{
    if dev_mode {
        StartPlan::UseExternalBackend
    } else {
        StartPlan::SpawnSidecar(sidecar_env(settings, data_dir))
    }
}

} // verus!
