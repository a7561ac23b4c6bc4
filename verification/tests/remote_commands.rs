use orchestrator_core::remote::auth_outcome;
use orchestrator_core::remote::command_outcome;
use orchestrator_core::remote::compose_ps_command;
use orchestrator_core::remote::health_ok;
use orchestrator_core::remote::health_probe_command;
use orchestrator_core::remote::logs_command;
use orchestrator_core::remote::portal_url;
use orchestrator_core::remote::start_command;
use orchestrator_core::remote::stop_command;
use orchestrator_core::remote::u64_to_dec;
use orchestrator_core::remote::ConnectError;

#[test]
fn decimal_rendering_is_exact() {
    assert_eq!(u64_to_dec(0), "0");
    assert_eq!(u64_to_dec(7), "7");
    assert_eq!(u64_to_dec(42), "42");
    assert_eq!(u64_to_dec(8080), "8080");
    assert_eq!(u64_to_dec(65535), "65535");
    assert_eq!(u64_to_dec(1000001), "1000001");
}

#[test]
fn command_strings_are_exact() {
    assert_eq!(
        compose_ps_command("/opt/portal"),
        "cd /opt/portal && docker compose ps --format json"
    );
    assert_eq!(start_command("/opt/portal"), "cd /opt/portal && docker compose up -d");
    assert_eq!(stop_command("/opt/portal"), "cd /opt/portal && docker compose down");
    assert_eq!(
        logs_command("/opt/portal", None, 100),
        "cd /opt/portal && docker compose logs --tail 100"
    );
    assert_eq!(
        logs_command("/opt/portal", Some("ai-portal"), 50),
        "cd /opt/portal && docker compose logs --tail 50 ai-portal"
    );
    assert_eq!(
        health_probe_command(8080),
        "curl -s -o /dev/null -w '%{http_code}' http://localhost:8080 || echo '000'"
    );
    assert_eq!(portal_url("portal.example", 8080), "http://portal.example:8080");
}

#[test]
fn health_verdict_trims_and_compares() {
    assert!(health_ok("200"));
    assert!(health_ok(" 200\n"));
    assert!(!health_ok("000"));
    assert!(!health_ok("404"));
    assert!(!health_ok("20"));
    assert!(!health_ok(""));
}

#[test]
fn auth_outcome_taxonomy() {
    assert!(auth_outcome(true, true).is_ok());
    assert_eq!(auth_outcome(false, true), Err(ConnectError::CredentialNotFound));
    assert_eq!(auth_outcome(false, false), Err(ConnectError::CredentialNotFound));
    assert_eq!(auth_outcome(true, false), Err(ConnectError::AuthenticationFailed));
}

#[test]
fn command_outcome_preserves_output() {
    let ok = command_outcome(0, "all good\n".to_string());
    assert_eq!(ok.unwrap(), "all good\n");
    let err = command_outcome(17, "partial output".to_string()).unwrap_err();
    assert_eq!(err.exit_code, 17);
    assert_eq!(err.output, "partial output");
}
