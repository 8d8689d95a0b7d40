use hubstry_iso_code::audit::{self, LogLevel};

#[test]
fn test_audit_log_runs() {
    let line = audit::log_line(LogLevel::Info, "Test log message");
    assert_eq!(line, "[INFO] Test log message");
}

#[test]
fn audit_levels_pick_their_stream() {
    assert!(!LogLevel::Info.to_error_stream());
    assert!(LogLevel::Warning.to_error_stream());
    assert_eq!(audit::log_line(LogLevel::Error, "x"), "[ERROR] x");
}
