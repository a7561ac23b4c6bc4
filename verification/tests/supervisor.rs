use orchestrator_core::supervisor::LaunchGate;
use orchestrator_core::supervisor::ProcessRegistry;

#[test]
fn second_launch_refused_while_alive() {
    let mut reg = ProcessRegistry::new();
    assert_eq!(reg.lookup("vctt"), None);
    assert_eq!(reg.begin_launch("vctt", false), LaunchGate::Proceed);
    reg.record_spawn("vctt", 101);
    assert_eq!(reg.lookup("vctt"), Some(101));
    // The first process is still alive: the second launch must be refused.
    assert_eq!(reg.begin_launch("vctt", true), LaunchGate::AlreadyRunning);
    assert_eq!(reg.lookup("vctt"), Some(101));
}

#[test]
fn relaunch_allowed_after_exit() {
    let mut reg = ProcessRegistry::new();
    assert_eq!(reg.begin_launch("vctt", false), LaunchGate::Proceed);
    reg.record_spawn("vctt", 101);
    // The tracked process has exited: the stale entry is reaped and the
    // launch proceeds.
    assert_eq!(reg.begin_launch("vctt", false), LaunchGate::Proceed);
    assert_eq!(reg.lookup("vctt"), None);
    reg.record_spawn("vctt", 102);
    assert_eq!(reg.lookup("vctt"), Some(102));
}

#[test]
fn is_running_reflects_probe() {
    let mut reg = ProcessRegistry::new();
    assert!(!reg.is_running("vctt", true));
    reg.record_spawn("vctt", 7);
    assert!(reg.is_running("vctt", true));
    // The process exited; the non-blocking probe reports it and the id no
    // longer counts as running.
    assert!(!reg.is_running("vctt", false));
    assert!(!reg.is_running("other", true));
}

#[test]
fn terminate_unknown_id_is_noop() {
    let mut reg = ProcessRegistry::new();
    reg.record_spawn("a", 1);
    assert_eq!(reg.terminate("unknown"), None);
    assert_eq!(reg.lookup("a"), Some(1));
}

#[test]
fn terminate_known_id_reports_not_running() {
    let mut reg = ProcessRegistry::new();
    reg.record_spawn("a", 1);
    reg.record_spawn("b", 2);
    assert_eq!(reg.terminate("a"), Some(1));
    assert!(!reg.is_running("a", true));
    assert_eq!(reg.lookup("a"), None);
    assert_eq!(reg.lookup("b"), Some(2));
}

#[test]
fn cleanup_all_empties_registry() {
    let mut reg = ProcessRegistry::new();
    reg.record_spawn("a", 1);
    reg.record_spawn("b", 2);
    reg.record_spawn("c", 3);
    // Whether each tracked process is live or already exited, the drain
    // hands every handle back and leaves nothing tracked.
    let handles = reg.cleanup_all();
    assert_eq!(handles, vec![1, 2, 3]);
    assert_eq!(reg.lookup("a"), None);
    assert_eq!(reg.lookup("b"), None);
    assert_eq!(reg.lookup("c"), None);
    assert!(!reg.is_running("a", true));
}

#[test]
fn cleanup_all_on_empty_registry() {
    let mut reg = ProcessRegistry::new();
    let handles = reg.cleanup_all();
    assert!(handles.is_empty());
}
