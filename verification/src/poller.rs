use vstd::prelude::*;

verus! {

use vstd::arithmetic::mul::lemma_mul_inequality;
use vstd::arithmetic::div_mod::lemma_fundamental_div_mod;

/// What one readiness probe of the backend observed: an HTTP status, or a
/// connection/transport failure. Anything but status 200 means "not ready
/// yet"; the cases are not distinguished beyond that.
#[derive(PartialEq, Eq, Structural, Debug, Clone, Copy)]
pub enum ProbeOutcome {
    Status(u16),
    TransportError,
}

/// The probe saw the backend ready.
pub open spec fn probe_ok(o: ProbeOutcome) -> bool {
    o == ProbeOutcome::Status(200u16)
}

/// How the readiness gate resolved.
#[derive(PartialEq, Eq, Structural, Debug, Clone, Copy)]
pub enum PollResult {
    Ready,
    TimedOut,
}

/// A resolved readiness gate: its outcome and how many probes it issued.
#[derive(PartialEq, Eq, Structural, Debug, Clone, Copy)]
pub struct PollReport {
    pub result: PollResult,
    pub attempts: u64,
}

/// The model clock after `attempts` failed probes, each charged one poll
/// interval, saturating at `u64::MAX`.
pub open spec fn model_clock(attempts: int, interval: int) -> int {
    if attempts * interval <= u64::MAX as int {
        attempts * interval
    } else {
        u64::MAX as int
    }
}

/// The readiness gate's state between probes. The poller itself issues no
/// I/O: the caller probes the health endpoint, hands each outcome to
/// `observe`, and sleeps one interval between failed probes; the poller
/// keeps the deadline bookkeeping, charging one interval of waiting per
/// failed probe.
pub struct HealthPoller {
    pub timeout_ms: u64,
    pub interval_ms: u64,
    pub waited_ms: u64,
}

impl HealthPoller {
    /// The poll interval must be positive, so that waiting advances the
    /// clock toward the deadline.
    pub open spec fn wf(self) -> bool {
        self.interval_ms >= 1
    }

    /// The deadline has passed: no further probe is issued.
    pub open spec fn timed_out(self) -> bool {
        self.waited_ms >= self.timeout_ms
    }

    pub fn new(timeout_ms: u64, interval_ms: u64) -> (p: HealthPoller)
        requires
            interval_ms >= 1,
        ensures
            p.wf(),
            p.timeout_ms == timeout_ms,
            p.interval_ms == interval_ms,
            p.waited_ms == 0,
    {
        HealthPoller { timeout_ms, interval_ms, waited_ms: 0 }
    }

    /// Whether another probe is due, checked before each attempt: once
    /// the deadline is behind us the wait resolves `TimedOut` without
    /// issuing the attempt.
    pub fn should_attempt(&self) -> (r: bool)
        ensures
            r == !self.timed_out(),
    {
        self.waited_ms < self.timeout_ms
    }

    /// Records one probe's outcome. A 200 status means the backend is
    /// ready at once, with no time charged; any other outcome charges one
    /// poll interval of waiting (saturating) for the sleep before the
    /// next attempt.
    pub fn observe(&mut self, outcome: &ProbeOutcome) -> (ready: bool)
        ensures
            final(self).timeout_ms == old(self).timeout_ms,
            final(self).interval_ms == old(self).interval_ms,
            ready == probe_ok(*outcome),
            ready ==> final(self).waited_ms == old(self).waited_ms,
            !ready ==> final(self).waited_ms as int == (if old(self).waited_ms as int + old(
                self,
            ).interval_ms as int <= u64::MAX as int {
                old(self).waited_ms as int + old(self).interval_ms as int
            } else {
                u64::MAX as int
            }),
    {
        let ready = *outcome == ProbeOutcome::Status(200);
        if !ready {
            if self.waited_ms <= u64::MAX - self.interval_ms {
                self.waited_ms = self.waited_ms + self.interval_ms;
            } else {
                self.waited_ms = u64::MAX;
            }
        }
        ready
    }
}

/// The probe at index `k` of the script saw the backend ready.
pub open spec fn succ_at(s: Seq<ProbeOutcome>, k: int) -> bool {
    0 <= k < s.len() && probe_ok(s[k])
}

/// Index `k` is the first probe of the script to see the backend ready.
pub open spec fn ready_index(s: Seq<ProbeOutcome>, k: int) -> bool {
    succ_at(s, k) && (forall|j: int| 0 <= j < k ==> !succ_at(s, j))
}

/// The whole readiness gate, run against a script of probe outcomes: probe
/// `k` of the run observes `outcomes[k]`, or a transport failure once the
/// script is exhausted. Returns `Ready` at the first 200 status, with no
/// further attempts; otherwise keeps probing, one interval of waiting per
/// failed probe, until the timeout has elapsed, and returns `TimedOut`.
pub fn wait_for_backend(outcomes: &Vec<ProbeOutcome>, timeout_ms: u64, interval_ms: u64) -> (r:
    PollReport)
    requires
        interval_ms >= 1,
    ensures
        (r.result is Ready) <==> (exists|k: int|
            (0 <= k && #[trigger] ready_index(outcomes@, k) && k * (interval_ms as int) < timeout_ms as int)),
        r.result is Ready ==> r.attempts >= 1 && ready_index(outcomes@, r.attempts as int - 1),
        r.result is TimedOut ==> r.attempts as int * interval_ms as int >= timeout_ms as int,
        r.result is TimedOut && r.attempts >= 1 ==> (r.attempts as int - 1) * (
        interval_ms as int) < timeout_ms as int,
        r.attempts == 0 ==> timeout_ms == 0,
{
    let mut poller = HealthPoller::new(timeout_ms, interval_ms);
    let mut attempts: u64 = 0;
    while poller.waited_ms < poller.timeout_ms
        invariant
            interval_ms >= 1,
            poller.timeout_ms == timeout_ms,
            poller.interval_ms == interval_ms,
            poller.waited_ms as int == model_clock(attempts as int, interval_ms as int),
            forall|j: int| 0 <= j < attempts as int ==> !succ_at(outcomes@, j),
            attempts == 0 || (attempts as int - 1) * (interval_ms as int) < timeout_ms as int,
        decreases u64::MAX as int - poller.waited_ms as int,
    {
        proof {
            // the clock has not saturated, so it is exactly attempts * interval
            assert(attempts as int * interval_ms as int == poller.waited_ms as int);
            assert(attempts as int <= attempts as int * interval_ms as int) by (nonlinear_arith)
                requires
                    interval_ms >= 1,
                    attempts as int >= 0,
            ;
        }
        let o: ProbeOutcome = if attempts < outcomes.len() as u64 {
            outcomes[attempts as usize]
        } else {
            ProbeOutcome::TransportError
        };
        let ghost k = attempts as int;
        attempts = attempts + 1;
        let ready = poller.observe(&o);
        if ready {
            proof {
                assert(succ_at(outcomes@, k));
                assert(ready_index(outcomes@, k));
                assert(k * (interval_ms as int) < timeout_ms as int);
            }
            return PollReport { result: PollResult::Ready, attempts };
        }
        proof {
            assert(!succ_at(outcomes@, k));
            assert((k + 1) * interval_ms as int == k * interval_ms as int + interval_ms as int)
                by (nonlinear_arith);
            assert(poller.waited_ms as int == model_clock(attempts as int, interval_ms as int));
        }
    }
    proof {
        // on exit the charged waiting covers the whole timeout
        if attempts as int * interval_ms as int <= u64::MAX as int {
            assert(poller.waited_ms as int == attempts as int * interval_ms as int);
        } else {
            assert(attempts as int * interval_ms as int > u64::MAX as int >= timeout_ms as int);
        }
        // and no probe inside the window saw the backend ready
        assert forall|k: int|
            0 <= k && #[trigger] ready_index(outcomes@, k) && k * (interval_ms as int) < timeout_ms as int implies false by {
            if k < attempts as int {
                assert(!succ_at(outcomes@, k));
            } else {
                assert(attempts as int * interval_ms as int >= timeout_ms as int);
                lemma_mul_inequality(attempts as int, k, interval_ms as int);
            }
        }
    }
    PollReport { result: PollResult::TimedOut, attempts }
}

/// The readiness gate's two guarantees about attempt counts. A run that
/// resolves `TimedOut` issued at least `timeout / interval` probes: the
/// deadline check happens before each attempt, and each failed attempt
/// charges exactly one interval, so at least `⌊timeout / interval⌋`
/// attempts fit inside the window. A run whose very first probe answers
/// 200 resolves `Ready` after exactly that one attempt, with no further
/// polling.
pub proof fn lemma_wait_for_backend_attempts(
    outcomes: Seq<ProbeOutcome>,
    timeout_ms: u64,
    interval_ms: u64,
    r: PollReport,
)
    requires
        interval_ms >= 1,
        (r.result is Ready) <==> (exists|k: int|
            (0 <= k && #[trigger] ready_index(outcomes, k) && k * (interval_ms as int) < timeout_ms as int)),
        r.result is Ready ==> r.attempts >= 1 && ready_index(outcomes, r.attempts as int - 1),
        r.result is TimedOut ==> r.attempts as int * interval_ms as int >= timeout_ms as int,
    ensures
        r.result is TimedOut ==> r.attempts as int >= timeout_ms as int / interval_ms as int,
        succ_at(outcomes, 0) && timeout_ms > 0 ==> r.result is Ready && r.attempts == 1,
{
    let t = timeout_ms as int;
    let i = interval_ms as int;
    if r.result is TimedOut {
        let a = r.attempts as int;
        if a < t / i {
            lemma_mul_inequality(a, t / i - 1, i);
            lemma_fundamental_div_mod(t, i);
            assert(a * i <= (t / i - 1) * i);
            assert((t / i - 1) * i == (t / i) * i - i) by (nonlinear_arith);
            assert((t / i) * i <= t);
            assert(a * i < t);
        }
    }
    if succ_at(outcomes, 0) && timeout_ms > 0 {
        assert(ready_index(outcomes, 0));
        assert(0 * i < t);
        assert(r.result is Ready);
        assert(ready_index(outcomes, r.attempts as int - 1));
        if r.attempts as int - 1 > 0 {
            assert(!succ_at(outcomes, 0));
        }
    }
}

} // verus!
