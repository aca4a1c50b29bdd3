use print_and_log::LogPlan;
use print_and_log::PALMessageType;
use print_and_log::PrintAndLog;

#[test]
fn default_settings() {
    let pal = PrintAndLog::new();
    assert_eq!(pal.get_log_to_file(), true);
    assert_eq!(pal.get_log_file_name(), "application.log");
    assert_eq!(pal.get_max_file_size(), 10000000);
    assert_eq!(pal.get_timestamp_format_for_print(), "%d.%m.%Y %H:%M:%S");
}

#[test]
fn set_valid_file_name_is_returned_exactly() {
    let mut pal = PrintAndLog::new();
    assert!(pal.set_log_file_name("mycool.log").is_ok());
    assert_eq!(pal.get_log_file_name(), "mycool.log");
    assert!(pal.set_log_file_name("A-1_b.2").is_ok());
    assert_eq!(pal.get_log_file_name(), "A-1_b.2");
    assert!(pal.set_log_file_name("x").is_ok());
    assert_eq!(pal.get_log_file_name(), "x");
}

#[test]
fn set_invalid_file_name_fails_and_keeps_previous() {
    let mut pal = PrintAndLog::new();
    assert_eq!(pal.set_log_file_name(""), Err("File name is not valid."));
    assert_eq!(pal.get_log_file_name(), "application.log");
    assert!(pal.set_log_file_name("bad/name.log").is_err());
    assert!(pal.set_log_file_name("has space.log").is_err());
    assert!(pal.set_log_file_name("tab\tname").is_err());
    assert!(pal.set_log_file_name("new\nline").is_err());
    assert!(pal.set_log_file_name("quoted\"name").is_err());
    assert_eq!(pal.get_log_file_name(), "application.log");
}

#[test]
fn file_name_check_is_ascii_only() {
    let pal = PrintAndLog::new();
    assert!(pal.is_valid_filename(&String::from("application.log")));
    assert!(pal.is_valid_filename(&String::from("A-Z_0.9")));
    assert!(!pal.is_valid_filename(&String::from("")));
    assert!(!pal.is_valid_filename(&String::from("semi;colon")));
    assert!(!pal.is_valid_filename(&String::from("caf\u{e9}.log")));
}

#[test]
fn set_positive_max_file_size_succeeds() {
    let mut pal = PrintAndLog::new();
    assert!(pal.set_max_file_size(1).is_ok());
    assert_eq!(pal.get_max_file_size(), 1);
    assert!(pal.set_max_file_size(4000000).is_ok());
    assert_eq!(pal.get_max_file_size(), 4000000);
    assert!(pal.set_max_file_size(u32::MAX).is_ok());
    assert_eq!(pal.get_max_file_size(), u32::MAX);
}

#[test]
fn set_zero_max_file_size_fails_and_keeps_previous() {
    let mut pal = PrintAndLog::new();
    assert_eq!(pal.set_max_file_size(0), Err("File size cannot be 0."));
    assert_eq!(pal.get_max_file_size(), 10000000);
}

#[test]
fn set_timestamp_format_accepts_non_empty_only() {
    let mut pal = PrintAndLog::new();
    assert!(pal.set_timestamp_format_for_print("%d %m").is_ok());
    assert_eq!(pal.get_timestamp_format_for_print(), "%d %m");
    assert_eq!(
        pal.set_timestamp_format_for_print(""),
        Err("Invalid timestamp.")
    );
    assert_eq!(pal.get_timestamp_format_for_print(), "%d %m");
}

#[test]
fn set_log_to_file_toggles() {
    let mut pal = PrintAndLog::new();
    pal.set_log_to_file(false);
    assert_eq!(pal.get_log_to_file(), false);
    pal.set_log_to_file(true);
    assert_eq!(pal.get_log_to_file(), true);
}

#[test]
fn getters_are_idempotent() {
    let pal = PrintAndLog::new();
    assert_eq!(pal.get_log_to_file(), pal.get_log_to_file());
    assert_eq!(pal.get_log_file_name(), pal.get_log_file_name());
    assert_eq!(pal.get_max_file_size(), pal.get_max_file_size());
    assert_eq!(
        pal.get_timestamp_format_for_print(),
        pal.get_timestamp_format_for_print()
    );
}

#[test]
fn severity_labels() {
    assert_eq!(PALMessageType::Success.as_str(), "SUCCESS");
    assert_eq!(PALMessageType::Error.as_str(), "ERROR");
    assert_eq!(PALMessageType::Warn.as_str(), "WARN");
    assert_eq!(PALMessageType::Info.as_str(), "INFO");
    assert_eq!(PALMessageType::Debug.as_str(), "DEBUG");
    assert_eq!(PALMessageType::Trace.as_str(), "TRACE");
}

#[test]
fn log_line_has_documented_format() {
    let line = print_and_log::format_log_line(
        "2024-01-02 15:04:05.123",
        &PALMessageType::Info,
        "Test",
        "hello",
    );
    assert_eq!(line, "2024-01-02 15:04:05.123 INFO Test: hello\n");
}

#[test]
fn console_line_without_title_has_no_title_segment() {
    let line = print_and_log::format_untitled_console_line("02.01.2024 15:04:05", "no title message");
    assert_eq!(line, "[ 02.01.2024 15:04:05 ] no title message");
    assert!(!line.contains('\u{1b}'));
}

#[test]
fn console_line_with_title_keeps_order() {
    let line = print_and_log::format_titled_console_line("02.01.2024 15:04:05", "Info", "a message");
    assert_eq!(line, "[ 02.01.2024 15:04:05 ] Info a message");
}

#[test]
fn rotated_name_prefixes_timestamp() {
    let name = print_and_log::format_rotated_name("2024-01-02 15:04:05.123", "application.log");
    assert_eq!(name, "2024-01-02 15:04:05.123.application.log");
}

#[test]
fn plan_skips_when_file_logging_is_off() {
    let mut pal = PrintAndLog::new();
    pal.set_log_to_file(false);
    let plan = pal.plan_log("ts", Some(99999999), "Test", "hello", &PALMessageType::Info);
    assert!(matches!(plan, LogPlan::Skip));
}

#[test]
fn plan_appends_below_and_at_threshold() {
    let mut pal = PrintAndLog::new();
    pal.set_max_file_size(50).unwrap();
    match pal.plan_log("ts", Some(10), "Test", "hello", &PALMessageType::Info) {
        LogPlan::Append { line } => assert_eq!(line, "ts INFO Test: hello\n"),
        _ => panic!("expected a plain append"),
    }
    match pal.plan_log("ts", Some(50), "Test", "hello", &PALMessageType::Info) {
        LogPlan::Append { line } => assert_eq!(line, "ts INFO Test: hello\n"),
        _ => panic!("a size equal to the threshold must not rotate"),
    }
    match pal.plan_log("ts", None, "Test", "hello", &PALMessageType::Info) {
        LogPlan::Append { line } => assert_eq!(line, "ts INFO Test: hello\n"),
        _ => panic!("an unreadable size must not rotate"),
    }
}

#[test]
fn plan_rotates_above_threshold() {
    let mut pal = PrintAndLog::new();
    pal.set_max_file_size(50).unwrap();
    match pal.plan_log("2024-01-02 15:04:05.123", Some(60), "Warn", "third entry", &PALMessageType::Warn) {
        LogPlan::RotateThenAppend { rotated_path, line } => {
            assert_eq!(rotated_path, "2024-01-02 15:04:05.123.application.log");
            assert_eq!(line, "2024-01-02 15:04:05.123 WARN Warn: third entry\n");
        }
        _ => panic!("a size above the threshold must rotate first"),
    }
}

#[test]
fn log_timestamp_has_millisecond_format() {
    let pal = PrintAndLog::new();
    let ts = pal.get_log_timestamp();
    let bytes = ts.as_bytes();
    assert_eq!(bytes.len(), 23);
    assert_eq!(bytes[4], b'-');
    assert_eq!(bytes[7], b'-');
    assert_eq!(bytes[10], b' ');
    assert_eq!(bytes[13], b':');
    assert_eq!(bytes[16], b':');
    assert_eq!(bytes[19], b'.');
    assert!(!ts.contains('\n'));
}

#[test]
fn display_timestamp_follows_configured_format() {
    let mut pal = PrintAndLog::new();
    let ts = pal.get_timestamp();
    assert_eq!(ts.len(), "01.02.2003 04:05:06".len());
    pal.set_timestamp_format_for_print("year %Y").unwrap();
    let ts2 = pal.get_timestamp();
    assert!(ts2.starts_with("year 2"));
}

#[test]
fn styled_title_keeps_the_title_text() {
    for t in [
        PALMessageType::Success,
        PALMessageType::Error,
        PALMessageType::Warn,
        PALMessageType::Info,
        PALMessageType::Debug,
        PALMessageType::Trace,
    ] {
        let styled = print_and_log::styled_title("headline", &t);
        assert!(!styled.is_empty());
        assert!(styled.contains("headline"));
    }
}

#[test]
fn print_writes_without_failing() {
    let pal = PrintAndLog::new();
    pal.print("", "no title message", &PALMessageType::Info);
    pal.print("Info", "a titled message", &PALMessageType::Info);
}
