use comandas_frontend::relay::{exit_details, relay_event, relay_events, ExitStatus, LogEntry, LogLevel, ProcessEvent};

fn pairs(entries: &[LogEntry]) -> Vec<(LogLevel, String)> {
    entries.iter().map(|e| (e.level, e.message.clone())).collect()
}

fn exited(code: i32) -> ProcessEvent {
    ProcessEvent::Terminated(ExitStatus { code: Some(code), signal: None })
}

#[test]
fn ready_then_terminated_gives_two_entries_and_stops() {
    let events = vec![
        ProcessEvent::Stdout(b"ready".to_vec()),
        exited(0),
        ProcessEvent::Stdout(b"after the end".to_vec()),
    ];
    let log = relay_events(&events);
    assert_eq!(
        pairs(&log),
        vec![
            (LogLevel::Info, "[Backend STDOUT] ready".to_string()),
            (LogLevel::Info, "[Backend] Proceso terminado: TerminatedPayload { code: Some(0), signal: None }".to_string()),
        ]
    );
}

#[test]
fn stdout_line_is_logged_as_info() {
    let step = relay_event(&ProcessEvent::Stdout(b"listening".to_vec()));
    assert!(step.keep_reading);
    let e = step.entry.unwrap();
    assert_eq!(e.level, LogLevel::Info);
    assert_eq!(e.message, "[Backend STDOUT] listening");
}

#[test]
fn stderr_line_is_logged_as_error() {
    let step = relay_event(&ProcessEvent::Stderr(b"warning: slow".to_vec()));
    assert!(step.keep_reading);
    let e = step.entry.unwrap();
    assert_eq!(e.level, LogLevel::Error);
    assert_eq!(e.message, "[Backend STDERR] warning: slow");
}

#[test]
fn invalid_utf8_is_decoded_lossily() {
    let step = relay_event(&ProcessEvent::Stdout(vec![0x6f, 0x6b, 0xff]));
    assert_eq!(step.entry.unwrap().message, "[Backend STDOUT] ok\u{FFFD}");
}

#[test]
fn multibyte_utf8_is_kept() {
    let step = relay_event(&ProcessEvent::Stderr("conexión".as_bytes().to_vec()));
    assert_eq!(step.entry.unwrap().message, "[Backend STDERR] conexión");
}

#[test]
fn stream_error_is_logged_and_relay_goes_on() {
    let step = relay_event(&ProcessEvent::Error("broken pipe".to_string()));
    assert!(step.keep_reading);
    let e = step.entry.unwrap();
    assert_eq!(e.level, LogLevel::Error);
    assert_eq!(e.message, "[Backend ERROR] broken pipe");
}

#[test]
fn other_events_are_ignored() {
    let step = relay_event(&ProcessEvent::Other);
    assert!(step.keep_reading);
    assert!(step.entry.is_none());
}

#[test]
fn termination_ends_the_relay() {
    let step = relay_event(&exited(3));
    assert!(!step.keep_reading);
    let e = step.entry.unwrap();
    assert_eq!(e.level, LogLevel::Info);
    assert_eq!(e.message, "[Backend] Proceso terminado: TerminatedPayload { code: Some(3), signal: None }");
}

#[test]
fn exit_details_cover_signals_and_negative_codes() {
    assert_eq!(exit_details(&ExitStatus { code: None, signal: Some(9) }), "TerminatedPayload { code: None, signal: Some(9) }");
    assert_eq!(exit_details(&ExitStatus { code: Some(-1), signal: None }), "TerminatedPayload { code: Some(-1), signal: None }");
    assert_eq!(exit_details(&ExitStatus { code: Some(1234567), signal: Some(15) }), "TerminatedPayload { code: Some(1234567), signal: Some(15) }");
    assert_eq!(
        exit_details(&ExitStatus { code: Some(i32::MIN), signal: Some(i32::MAX) }),
        "TerminatedPayload { code: Some(-2147483648), signal: Some(2147483647) }"
    );
    assert_eq!(exit_details(&ExitStatus { code: Some(10), signal: Some(0) }), "TerminatedPayload { code: Some(10), signal: Some(0) }");
}

#[test]
fn stream_without_termination_is_relayed_whole() {
    let events = vec![
        ProcessEvent::Stdout(b"a".to_vec()),
        ProcessEvent::Other,
        ProcessEvent::Stderr(b"b".to_vec()),
        ProcessEvent::Error("c".to_string()),
    ];
    assert_eq!(
        pairs(&relay_events(&events)),
        vec![
            (LogLevel::Info, "[Backend STDOUT] a".to_string()),
            (LogLevel::Error, "[Backend STDERR] b".to_string()),
            (LogLevel::Error, "[Backend ERROR] c".to_string()),
        ]
    );
}

#[test]
fn empty_stream_logs_nothing() {
    assert!(relay_events(&Vec::new()).is_empty());
}

#[test]
fn empty_line_gives_bare_prefix() {
    let step = relay_event(&ProcessEvent::Stdout(Vec::new()));
    assert_eq!(step.entry.unwrap().message, "[Backend STDOUT] ");
}
