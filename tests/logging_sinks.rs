use detach::logging::{format_line, LogLevel, LoggingError, LoggingGuard};

#[test]
fn second_configure_fails_and_adds_nothing() {
    let mut g = LoggingGuard::new();
    assert!(!g.is_configured());
    let plan = g.configure("/tmp/a.log", LogLevel::Debug, true).unwrap();
    assert_eq!(plan.file_path, "/tmp/a.log");
    assert!(plan.console);
    assert_eq!(plan.level, LogLevel::Debug);
    assert!(g.is_configured());
    let again = g.configure("/tmp/a.log", LogLevel::Debug, true);
    assert!(matches!(again, Err(LoggingError::AlreadyConfigured)));
    assert!(g.is_configured());
}

#[test]
fn file_sink_always_truncates() {
    let mut g = LoggingGuard::new();
    let plan = g.configure("/var/log/x.log", LogLevel::Info, false).unwrap();
    assert!(plan.truncate_file);
    assert!(!plan.console);
}

#[test]
fn line_format() {
    let l = format_line("2024-01-02T03:04:05", LogLevel::Warn, "disk low");
    assert_eq!(l, "2024-01-02T03:04:05 - WARN - disk low\n");
    assert_eq!(format_line("", LogLevel::Trace, ""), " - TRACE - \n");
    assert_eq!(LogLevel::Error.as_str(), "ERROR");
}
