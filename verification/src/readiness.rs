//! Readiness orchestration: the protocol that turns a fire-and-forget
//! "start service" action into a bounded, retried wait for observable
//! health. The protocol is a pure state machine — phase plus elapsed
//! time to next phase — decoupled from the sleep primitive and from the
//! channel, so its timing logic is fully verified and testable without
//! real delays. The surrounding shell performs each phase's action
//! (inspect, start, sleep one interval, probe) and feeds the outcome
//! back in.

use vstd::prelude::*;
use crate::containers::ContainerStatus;
use crate::containers::is_service_running;
use crate::containers::service_running;
use crate::containers::statuses_view;

verus! {

/// Fixed polling interval, in seconds.
pub const POLL_INTERVAL_SECS: u64 = 2;

/// Fixed wall-clock ceiling for the whole wait, in seconds.
pub const MAX_WAIT_SECS: u64 = 120;

/// Phase of the ensure-service-ready protocol.
#[derive(PartialEq, Eq, Structural, Clone, Copy, Debug)]
pub enum Phase {
    /// The current containers must be inspected.
    Inspecting,
    /// The service is not running: the start command must be issued.
    Starting,
    /// The shell must sleep one polling interval; `waited` seconds of the
    /// ceiling are already spent.
    Sleeping { waited: u64 },
    /// The shell must probe health; `waited` seconds are spent.
    Probing { waited: u64 },
    /// Terminal: the service is reachable.
    Ready,
    /// Terminal: the ceiling elapsed without a successful probe.
    TimedOut,
    /// Terminal: the start command itself failed; this is fatal and never
    /// retried.
    StartFailed,
}

/// What follows an inspection: a service found running goes straight to
/// `Ready` and is never restarted; otherwise it is started.
pub open spec fn spec_after_inspection(running: bool) -> Phase {
    if running {
        Phase::Ready
    } else {
        Phase::Starting
    }
}

/// What follows the start command: success begins the poll loop with
/// nothing of the ceiling spent; failure is fatal.
pub open spec fn spec_after_start(start_ok: bool) -> Phase {
    if start_ok {
        Phase::Sleeping { waited: 0 }
    } else {
        Phase::StartFailed
    }
}

/// One interval of sleep spends its seconds, then health is probed.
pub open spec fn spec_after_sleep(waited: u64) -> Phase {
    Phase::Probing { waited: (waited + POLL_INTERVAL_SECS) as u64 }
}

/// What follows a health probe: the first success ends the wait at
/// once, with no further sleeps; a failure — not yet ready, or a probe
/// error, both deliberately treated alike — polls again while the
/// ceiling allows, and exhausts to `TimedOut` otherwise.
pub open spec fn spec_after_probe(waited: u64, healthy: bool) -> Phase {
    if healthy {
        Phase::Ready
    } else if waited < MAX_WAIT_SECS {
        Phase::Sleeping { waited }
    } else {
        Phase::TimedOut
    }
}

/// Decide the phase that follows an inspection result.
pub fn after_inspection(containers: &Vec<ContainerStatus>, service: &str) -> (p: Phase)
    ensures
        p == spec_after_inspection(service_running(statuses_view(containers@), service@)),
{
    if is_service_running(containers, service) {
        Phase::Ready
    } else {
        Phase::Starting
    }
}

/// Decide the phase that follows the start command's outcome.
pub fn after_start(start_ok: bool) -> (p: Phase)
    ensures
        p == spec_after_start(start_ok),
{
    if start_ok {
        Phase::Sleeping { waited: 0 }
    } else {
        Phase::StartFailed
    }
}

/// Account one slept interval. Sleeps only happen while the ceiling is
/// not yet spent, so the sum stays within it.
pub fn after_sleep(waited: u64) -> (p: Phase)
    requires
        waited < MAX_WAIT_SECS,
    ensures
        p == spec_after_sleep(waited),
{
    Phase::Probing { waited: waited + POLL_INTERVAL_SECS }
}

/// Decide the phase that follows a health probe's verdict.
pub fn after_probe(waited: u64, healthy: bool) -> (p: Phase)
    ensures
        p == spec_after_probe(waited, healthy),
{
    if healthy {
        Phase::Ready
    } else if waited < MAX_WAIT_SECS {
        Phase::Sleeping { waited }
    } else {
        Phase::TimedOut
    }
}

/// The poll loop, run out in one stroke: from `Sleeping { waited }`,
/// consume probe verdicts until a terminal phase or until the verdicts
/// run out. Returns the phase reached and how many intervals were slept.
pub open spec fn run_poll(waited: u64, probes: Seq<bool>) -> (Phase, nat)
    decreases probes.len(),
{
    if probes.len() == 0 {
        (Phase::Sleeping { waited }, 0)
    } else {
        let probed = (waited + POLL_INTERVAL_SECS) as u64;
        if probes.first() {
            (Phase::Ready, 1)
        } else if probed < MAX_WAIT_SECS {
            let rest = run_poll(probed, probes.drop_first());
            (rest.0, rest.1 + 1)
        } else {
            (Phase::TimedOut, 1)
        }
    }
}

/// The run spec agrees with the single-step transitions: one round of
/// the poll loop is one slept interval followed by one probe, and the
/// loop continues exactly when the probe sends it back to sleep.
pub proof fn lemma_run_poll_unfolds(waited: u64, probes: Seq<bool>)
    requires
        probes.len() > 0,
        waited < MAX_WAIT_SECS,
    ensures
        spec_after_sleep(waited) == (Phase::Probing {
            waited: (waited + POLL_INTERVAL_SECS) as u64,
        }),
        ({
            let probed = (waited + POLL_INTERVAL_SECS) as u64;
            match spec_after_probe(probed, probes.first()) {
                Phase::Ready => run_poll(waited, probes) == (Phase::Ready, 1nat),
                Phase::TimedOut => run_poll(waited, probes) == (Phase::TimedOut, 1nat),
                Phase::Sleeping { waited: resumed } => run_poll(waited, probes) == (
                    run_poll(resumed, probes.drop_first()).0,
                    run_poll(resumed, probes.drop_first()).1 + 1,
                ),
                _ => false,
            }
        }),
{
}

/// An already-healthy service is reported ready from inspection alone:
/// no start command is issued and no interval is slept.
pub proof fn lemma_already_running_short_circuits(
    cs: Seq<(Seq<char>, Seq<char>, Seq<char>)>,
    service: Seq<char>,
)
    requires
        service_running(cs, service),
    ensures
        spec_after_inspection(service_running(cs, service)) == Phase::Ready,
        spec_after_inspection(service_running(cs, service)) != Phase::Starting,
{
}

/// First success ends the wait at once: if the first `k` probes fail and
/// probe `k + 1` succeeds within the ceiling, the poll loop reaches
/// `Ready` after exactly `k + 1` slept intervals.
pub proof fn lemma_first_success_counts_sleeps(waited: u64, probes: Seq<bool>, k: int)
    requires
        0 <= k < probes.len(),
        forall|i: int| 0 <= i < k ==> !probes[i],
        probes[k],
        waited + POLL_INTERVAL_SECS * (k + 1) < MAX_WAIT_SECS + POLL_INTERVAL_SECS,
    ensures
        run_poll(waited, probes) == (Phase::Ready, (k + 1) as nat),
    decreases k,
{
    if k == 0 {
    } else {
        let probed = (waited + POLL_INTERVAL_SECS) as u64;
        assert(!probes.first());
        lemma_first_success_counts_sleeps(probed, probes.drop_first(), k - 1);
    }
}

/// A probe that never succeeds exhausts the full fixed ceiling: starting
/// with `waited` seconds spent (an even count, as every reachable state
/// has), the poll loop reaches `TimedOut` after exactly the intervals
/// that remained. Run from the start of the wait, that is the whole
/// ceiling: sixty intervals, one hundred twenty seconds.
pub proof fn lemma_all_fail_times_out(waited: u64, probes: Seq<bool>)
    requires
        waited < MAX_WAIT_SECS,
        waited % 2 == 0,
        forall|i: int| 0 <= i < probes.len() ==> !probes[i],
        POLL_INTERVAL_SECS * probes.len() >= MAX_WAIT_SECS - waited,
    ensures
        run_poll(waited, probes) == (
            Phase::TimedOut,
            ((MAX_WAIT_SECS - waited) / POLL_INTERVAL_SECS as int) as nat,
        ),
    decreases MAX_WAIT_SECS - waited,
{
    assert(probes.len() > 0);
    assert(!probes.first());
    let probed = (waited + POLL_INTERVAL_SECS) as u64;
    if probed < MAX_WAIT_SECS {
        lemma_all_fail_times_out(probed, probes.drop_first());
    }
}

/// The poll loop never inspects or starts anything: once the start
/// command has been issued and polling has begun, the service is started
/// at most that once, whatever the probes report.
pub proof fn lemma_poll_never_restarts(waited: u64, probes: Seq<bool>)
    ensures
        run_poll(waited, probes).0 != Phase::Starting,
        run_poll(waited, probes).0 != Phase::Inspecting,
        run_poll(waited, probes).0 != Phase::StartFailed,
    decreases probes.len(),
{
    if probes.len() > 0 {
        let probed = (waited + POLL_INTERVAL_SECS) as u64;
        if !probes.first() && probed < MAX_WAIT_SECS {
            lemma_poll_never_restarts(probed, probes.drop_first());
        }
    }
}

} // verus!
