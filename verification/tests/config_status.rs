use orchestrator_core::config::default_true;
use orchestrator_core::config::AppConfig;
use orchestrator_core::config::LocalAppConfig;
use orchestrator_core::config::Preferences;
use orchestrator_core::config::ServerConfig;
use orchestrator_core::containers::ContainerStatus;
use orchestrator_core::status::status_connected;
use orchestrator_core::status::status_disconnected;

fn server(id: &str, host: &str) -> ServerConfig {
    ServerConfig {
        id: id.to_string(),
        name: id.to_string(),
        host: host.to_string(),
        port: 22,
        username: "deploy".to_string(),
        ssh_key_path: "/home/deploy/.ssh/id_ed25519".to_string(),
        portal_port: 8080,
        portal_path: "/opt/portal".to_string(),
    }
}

fn local_app(id: &str) -> LocalAppConfig {
    LocalAppConfig {
        id: id.to_string(),
        name: id.to_string(),
        executable_path: "/usr/bin/true".to_string(),
        working_directory: None,
    }
}

#[test]
fn defaults_match_document_conventions() {
    let c = AppConfig::default();
    assert_eq!(c.version, "1.0");
    assert!(c.servers.is_empty());
    assert!(c.local_apps.is_empty());
    assert!(c.preferences.auto_start_portal);
    assert!(c.preferences.minimize_to_tray);
    assert!(!c.preferences.startup_launch);
    let p = Preferences::default();
    assert!(p.auto_start_portal);
    assert!(p.minimize_to_tray);
    assert!(!p.startup_launch);
    assert!(default_true());
}

#[test]
fn get_server_finds_first_match() {
    let mut c = AppConfig::default();
    c.servers.push(server("prod", "one.example"));
    c.servers.push(server("prod", "two.example"));
    c.servers.push(server("lab", "three.example"));
    let s = c.get_server("prod").expect("server present");
    assert_eq!(s.host, "one.example");
    assert_eq!(c.get_server("lab").unwrap().host, "three.example");
    assert!(c.get_server("absent").is_none());
}

#[test]
fn get_local_app_finds_first_match() {
    let mut c = AppConfig::default();
    c.local_apps.push(local_app("vctt"));
    let a = c.get_local_app("vctt").expect("app present");
    assert_eq!(a.executable_path, "/usr/bin/true");
    assert!(c.get_local_app("absent").is_none());
}

#[test]
fn unreachable_host_reports_disconnected_without_error() {
    let s = status_disconnected();
    assert!(!s.connected);
    assert!(s.containers.is_empty());
    assert!(s.portal_url.is_none());
    assert!(!s.portal_ready);
}

#[test]
fn reachable_host_report_carries_observations() {
    let containers = vec![ContainerStatus {
        name: "ai-portal".to_string(),
        status: "Up".to_string(),
        state: "running".to_string(),
    }];
    let s = status_connected(containers, "http://portal.example:8080".to_string(), true);
    assert!(s.connected);
    assert_eq!(s.containers.len(), 1);
    assert_eq!(s.containers[0].name, "ai-portal");
    assert_eq!(s.portal_url.as_deref(), Some("http://portal.example:8080"));
    assert!(s.portal_ready);
}
