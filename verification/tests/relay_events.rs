use botshell::relay::{
    clean_line, relay_stdout_lines, stderr_event, stderr_event_now, stdout_event, stdout_event_now,
    LogLevel,
};
use botshell::worker::WorkerName;

#[test]
fn clean_line_trims_surrounding_whitespace() {
    assert_eq!(clean_line("  hello world \t"), Some(String::from("hello world")));
    assert_eq!(clean_line("no-trim-needed"), Some(String::from("no-trim-needed")));
}

#[test]
fn clean_line_handles_unicode_whitespace() {
    assert_eq!(clean_line("\u{00A0}hi\u{3000}\u{2009}"), Some(String::from("hi")));
    assert_eq!(clean_line("\u{2028}\u{1680}\u{0085}"), None);
}

#[test]
fn blank_lines_produce_no_event() {
    assert_eq!(clean_line(""), None);
    assert_eq!(clean_line("   \t  \r\n"), None);
    assert!(stdout_event("   ", 5, WorkerName::MonitoringBot).is_none());
    assert!(stderr_event("\t", 5, WorkerName::MonitoringBot).is_none());
}

#[test]
fn noise_lines_produce_no_event() {
    assert_eq!(clean_line("print(\"debug\")"), None);
    assert_eq!(clean_line("   print(x)  "), None);
    // the token alone is noise too
    assert_eq!(clean_line("print("), None);
    // but a line merely containing it is not
    assert_eq!(clean_line("saw print( in source"), Some(String::from("saw print( in source")));
    // and a shorter prefix of the token is not
    assert_eq!(clean_line("print"), Some(String::from("print")));
}

#[test]
fn stdout_event_fields() {
    let ev = stdout_event("  ready  ", 1234, WorkerName::MonitoringBot).unwrap();
    assert!(matches!(ev.level, LogLevel::Info));
    assert_eq!(ev.message, "ready");
    assert_eq!(ev.timestamp, 1234);
    assert!(matches!(ev.source, WorkerName::MonitoringBot));
}

#[test]
fn stderr_event_is_prefixed() {
    let ev = stderr_event(" boom \n", 9, WorkerName::BackendServer).unwrap();
    assert!(matches!(ev.level, LogLevel::Error));
    assert_eq!(ev.message, "ERROR: boom");
    assert_eq!(ev.timestamp, 9);
    assert!(matches!(ev.source, WorkerName::BackendServer));
}

#[test]
fn clock_stamped_events_have_epoch_timestamps() {
    let ev = stdout_event_now("tick", WorkerName::MonitoringBot).unwrap();
    assert!(ev.timestamp >= 0);
    let ev = stderr_event_now("tock", WorkerName::MonitoringBot).unwrap();
    assert!(ev.timestamp >= 0);
    assert_eq!(ev.message, "ERROR: tock");
}

#[test]
fn relay_keeps_every_surviving_line_in_order() {
    let lines: Vec<String> = vec![
        String::from("one"),
        String::from("  two  "),
        String::from("three"),
    ];
    let events = relay_stdout_lines(&lines, 77, WorkerName::MonitoringBot);
    assert_eq!(events.len(), 3);
    let messages: Vec<&str> = events.iter().map(|e| e.message.as_str()).collect();
    assert_eq!(messages, ["one", "two", "three"]);
    for ev in &events {
        assert!(matches!(ev.level, LogLevel::Info));
        assert_eq!(ev.timestamp, 77);
        assert!(matches!(ev.source, WorkerName::MonitoringBot));
    }
}

#[test]
fn relay_drops_blank_and_noise_lines_only() {
    let lines: Vec<String> = vec![
        String::from("   "),
        String::from("started"),
        String::from("print(\"x\")"),
        String::from(""),
        String::from("done"),
    ];
    let events = relay_stdout_lines(&lines, 0, WorkerName::MonitoringBot);
    let messages: Vec<&str> = events.iter().map(|e| e.message.as_str()).collect();
    assert_eq!(messages, ["started", "done"]);
}
