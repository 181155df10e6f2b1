use detach::config::{resolve_log_path, Args, ConfigError, ExecutionMode};
use detach::heartbeat::next_heartbeat;
use detach::logging::LogLevel;

fn args() -> Args {
    Args {
        detach: false,
        no_detach: false,
        tail: false,
        log_file: "./detach.log".to_string(),
        timeout: None,
        logging: None,
        command: None,
    }
}

#[test]
fn default_log_file_gets_a_stamp() {
    assert_eq!(resolve_log_path("./detach.log", "/home/u", "20240102-030405"), "/home/u/detach-20240102-030405.log");
}

#[test]
fn relative_and_absolute_log_files() {
    assert_eq!(resolve_log_path("logs/x.log", "/srv/", "s"), "/srv/logs/x.log");
    assert_eq!(resolve_log_path("x.log", "/srv", "s"), "/srv/x.log");
    assert_eq!(resolve_log_path("/var/log/x.log", "/srv", "s"), "/var/log/x.log");
}

#[test]
fn default_run_is_foreground_at_info() {
    let c = args().resolve("/w", "s", true).unwrap();
    assert!(matches!(c.mode(), ExecutionMode::Foreground));
    assert_eq!(c.log_level, LogLevel::Info);
    assert_eq!(c.log_path, "/w/detach-s.log");
}

#[test]
fn each_mode_is_chosen() {
    let mut a = args();
    a.detach = true;
    a.timeout = Some(60);
    let c = a.resolve("/w", "s", true).unwrap();
    assert!(matches!(c.mode(), ExecutionMode::Detach));
    assert_eq!(c.timeout, Some(60));

    let mut a = args();
    a.detach = true;
    a.no_detach = true;
    assert!(matches!(a.resolve("/w", "s", true).unwrap().mode(), ExecutionMode::Foreground));

    let mut a = args();
    a.tail = true;
    a.logging = Some(LogLevel::Trace);
    let c = a.resolve("/w", "s", true).unwrap();
    assert!(matches!(c.mode(), ExecutionMode::Tail));
    assert_eq!(c.log_level, LogLevel::Trace);

    let mut a = args();
    a.command = Some("exit 7".to_string());
    match a.resolve("/w", "s", false).unwrap().mode() {
        ExecutionMode::Command(c) => assert_eq!(c, "exit 7"),
        _ => panic!("expected the command mode"),
    }
}

#[test]
fn conflicts_are_refused() {
    let mut a = args();
    a.detach = true;
    a.tail = true;
    assert!(matches!(a.resolve("/w", "s", true), Err(ConfigError::ConflictingOptions)));
    let mut a = args();
    a.tail = true;
    a.command = Some("true".to_string());
    assert!(matches!(a.resolve("/w", "s", true), Err(ConfigError::ConflictingOptions)));
}

#[test]
fn detach_without_support_is_refused() {
    let mut a = args();
    a.detach = true;
    assert!(matches!(a.resolve("/w", "s", false), Err(ConfigError::DetachUnsupported)));
}

#[test]
fn heartbeats_stop_after_the_last() {
    assert_eq!(next_heartbeat(0), Some(1));
    assert_eq!(next_heartbeat(99), Some(100));
    assert_eq!(next_heartbeat(100), None);
}
