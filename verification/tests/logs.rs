use server_manager::logs::{format_entry, LogBuffer, PumpStep, ReadOutcome, Stream};
use server_manager::status::LogEvent;

#[test]
fn stdout_entry_is_the_sanitized_line() {
    assert_eq!(format_entry(Stream::Stdout, "\x1b[33mwarn\x1b[0m: low memory"), "warn: low memory");
}

#[test]
fn stderr_entry_carries_the_error_marker() {
    assert_eq!(format_entry(Stream::Stderr, "\x1b[31mfatal\x1b[0m"), "[ERROR] fatal");
    assert_eq!(format_entry(Stream::Stderr, ""), "[ERROR] ");
}

#[test]
fn new_buffer_is_empty() {
    assert!(LogBuffer::new().get_logs().is_empty());
}

#[test]
fn buffer_keeps_entries_in_order_until_cleared() {
    let mut buffer = LogBuffer::new();
    buffer.append("one".to_string());
    buffer.append("two".to_string());
    buffer.append("one".to_string());
    assert_eq!(buffer.get_logs(), vec!["one", "two", "one"]);
    assert!(buffer.clear_logs());
    assert!(buffer.get_logs().is_empty());
    buffer.append("three".to_string());
    assert_eq!(buffer.get_logs(), vec!["three"]);
}

#[test]
fn pump_logs_and_publishes_each_line() {
    let mut buffer = LogBuffer::new();
    let step = buffer.pump(Stream::Stdout, ReadOutcome::Line("\x1b[32m[INFO]\x1b[0m ready".to_string()));
    assert_eq!(step, PumpStep::Publish(LogEvent { lines: vec!["[INFO] ready".to_string()] }));
    let step = buffer.pump(Stream::Stderr, ReadOutcome::Line("\x1b[31mfailed\x1b[0m".to_string()));
    assert_eq!(step, PumpStep::Publish(LogEvent { lines: vec!["[ERROR] failed".to_string()] }));
    assert_eq!(buffer.get_logs(), vec!["[INFO] ready".to_string(), "[ERROR] failed".to_string()]);
}

#[test]
fn pump_stops_when_the_stream_closes_or_fails() {
    let mut buffer = LogBuffer::new();
    assert_eq!(buffer.pump(Stream::Stdout, ReadOutcome::Closed), PumpStep::Stop);
    assert_eq!(buffer.pump(Stream::Stderr, ReadOutcome::Failed("broken pipe".to_string())), PumpStep::Stop);
    assert!(buffer.get_logs().is_empty());
}

#[test]
fn clear_logs_empties_the_log_and_later_lines_appear_in_order() {
    let mut buffer = LogBuffer::new();
    let _ = buffer.pump(Stream::Stdout, ReadOutcome::Line("old 1".to_string()));
    let _ = buffer.pump(Stream::Stderr, ReadOutcome::Line("old 2".to_string()));
    assert!(buffer.clear_logs());
    assert!(buffer.get_logs().is_empty());
    let _ = buffer.pump(Stream::Stdout, ReadOutcome::Line("out 1".to_string()));
    let _ = buffer.pump(Stream::Stderr, ReadOutcome::Line("err 1".to_string()));
    let _ = buffer.pump(Stream::Stdout, ReadOutcome::Line("out 2".to_string()));
    let _ = buffer.pump(Stream::Stderr, ReadOutcome::Closed);
    let _ = buffer.pump(Stream::Stderr, ReadOutcome::Line("err 2".to_string()));
    let logs = buffer.get_logs();
    assert_eq!(logs, vec!["out 1", "[ERROR] err 1", "out 2", "[ERROR] err 2"]);
    let from_stdout: Vec<&String> = logs.iter().filter(|line| !line.starts_with("[ERROR] ")).collect();
    assert_eq!(from_stdout, vec!["out 1", "out 2"]);
    let from_stderr: Vec<&String> = logs.iter().filter(|line| line.starts_with("[ERROR] ")).collect();
    assert_eq!(from_stderr, vec!["[ERROR] err 1", "[ERROR] err 2"]);
}

#[test]
fn clearing_an_empty_log_succeeds() {
    let mut buffer = LogBuffer::new();
    assert!(buffer.clear_logs());
    assert!(buffer.clear_logs());
    assert!(buffer.get_logs().is_empty());
}
