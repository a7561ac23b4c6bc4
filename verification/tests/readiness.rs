use orchestrator_core::containers::ContainerStatus;
use orchestrator_core::readiness::after_inspection;
use orchestrator_core::readiness::after_probe;
use orchestrator_core::readiness::after_sleep;
use orchestrator_core::readiness::after_start;
use orchestrator_core::readiness::Phase;

fn container(name: &str, status: &str, state: &str) -> ContainerStatus {
    ContainerStatus {
        name: name.to_string(),
        status: status.to_string(),
        state: state.to_string(),
    }
}

/// Drive the protocol to a terminal phase with simulated outcomes,
/// counting issued start commands and slept intervals.
fn drive(containers: Vec<ContainerStatus>, start_ok: bool, probes: &[bool]) -> (Phase, u32, u32) {
    let mut starts: u32 = 0;
    let mut sleeps: u32 = 0;
    let mut next_probe: usize = 0;
    let mut phase = after_inspection(&containers, "ai-portal");
    loop {
        match phase {
            Phase::Starting => {
                starts += 1;
                phase = after_start(start_ok);
            }
            Phase::Sleeping { waited } => {
                sleeps += 1;
                phase = after_sleep(waited);
            }
            Phase::Probing { waited } => {
                let healthy = probes.get(next_probe).copied().unwrap_or(false);
                next_probe += 1;
                phase = after_probe(waited, healthy);
            }
            terminal => return (terminal, starts, sleeps),
        }
    }
}

#[test]
fn already_running_short_circuits() {
    // The service is already running and healthy: ready at once, no start
    // command issued, no interval slept.
    let containers = vec![
        container("db", "Up 2 hours", "running"),
        container("ai-portal", "Up 2 hours", "running"),
    ];
    let (phase, starts, sleeps) = drive(containers, true, &[true; 8]);
    assert_eq!(phase, Phase::Ready);
    assert_eq!(starts, 0);
    assert_eq!(sleeps, 0);
}

#[test]
fn stopped_container_does_not_short_circuit() {
    let containers = vec![container("ai-portal", "Exited (0)", "stopped")];
    let (phase, starts, sleeps) = drive(containers, true, &[true]);
    assert_eq!(phase, Phase::Ready);
    assert_eq!(starts, 1);
    assert_eq!(sleeps, 1);
}

#[test]
fn ready_after_first_failures() {
    // The probe fails for the first three polls and then succeeds: the
    // protocol sleeps once per probe, so it is ready after the fourth
    // interval, well inside the ceiling.
    let (phase, starts, sleeps) = drive(Vec::new(), true, &[false, false, false, true]);
    assert_eq!(phase, Phase::Ready);
    assert_eq!(starts, 1);
    assert_eq!(sleeps, 4);
}

#[test]
fn probe_never_succeeds_times_out_after_ceiling() {
    // Sixty intervals of two seconds exhaust the 120-second ceiling; the
    // start command was issued exactly once.
    let (phase, starts, sleeps) = drive(Vec::new(), true, &[false; 100]);
    assert_eq!(phase, Phase::TimedOut);
    assert_eq!(starts, 1);
    assert_eq!(sleeps, 60);
}

#[test]
fn success_on_last_probe_within_ceiling() {
    let mut probes = [false; 60];
    probes[59] = true;
    let (phase, starts, sleeps) = drive(Vec::new(), true, &probes);
    assert_eq!(phase, Phase::Ready);
    assert_eq!(starts, 1);
    assert_eq!(sleeps, 60);
}

#[test]
fn failed_start_is_fatal_and_not_retried() {
    let (phase, starts, sleeps) = drive(Vec::new(), false, &[true; 8]);
    assert_eq!(phase, Phase::StartFailed);
    assert_eq!(starts, 1);
    assert_eq!(sleeps, 0);
}
