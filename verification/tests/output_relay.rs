//! The output relay's handling of process events.

use sidecar_core::notify::Notification;
use sidecar_core::relay::{relay_events, relay_step, LogEntry, ProcessEvent};

#[test]
fn stdout_then_stderr_then_terminated_gives_one_error() {
    let events = vec![
        ProcessEvent::Stdout(b"a".to_vec()),
        ProcessEvent::Stderr(b"b".to_vec()),
        ProcessEvent::Terminated(Some(0)),
    ];
    let run = relay_events(&events);
    assert_eq!(run.processed, 3);
    assert_eq!(run.notices.len(), 1);
    assert!(
        matches!(&run.notices[0], Notification::Error(m) if m == "sidecar process terminated unexpectedly")
    );
    assert_eq!(run.logs.len(), 3);
    assert!(matches!(&run.logs[0], LogEntry::StdoutLine(t) if t == "a"));
    assert!(matches!(&run.logs[1], LogEntry::StderrLine(t) if t == "b"));
    assert!(matches!(&run.logs[2], LogEntry::TerminationNotice(Some(0))));
}

#[test]
fn events_after_termination_are_ignored() {
    let events = vec![
        ProcessEvent::Stdout(b"a".to_vec()),
        ProcessEvent::Stderr(b"b".to_vec()),
        ProcessEvent::Terminated(Some(0)),
        ProcessEvent::Stdout(b"late".to_vec()),
        ProcessEvent::Terminated(Some(1)),
    ];
    let run = relay_events(&events);
    assert_eq!(run.processed, 3);
    assert_eq!(run.notices.len(), 1);
    assert_eq!(run.logs.len(), 3);
}

#[test]
fn stream_errors_do_not_stop_the_relay() {
    let events = vec![
        ProcessEvent::SpawnError("boom".to_owned()),
        ProcessEvent::Stdout(b"still here".to_vec()),
    ];
    let run = relay_events(&events);
    assert_eq!(run.processed, 2);
    assert_eq!(run.notices.len(), 0);
    assert!(matches!(&run.logs[0], LogEntry::StreamError(m) if m == "boom"));
    assert!(matches!(&run.logs[1], LogEntry::StdoutLine(t) if t == "still here"));
}

#[test]
fn unknown_events_are_ignored() {
    let events = vec![
        ProcessEvent::Other,
        ProcessEvent::Stdout(b"x".to_vec()),
        ProcessEvent::Other,
    ];
    let run = relay_events(&events);
    assert_eq!(run.processed, 3);
    assert_eq!(run.logs.len(), 1);
    assert_eq!(run.notices.len(), 0);
}

#[test]
fn no_events_give_no_output() {
    let run = relay_events(&Vec::new());
    assert_eq!(run.processed, 0);
    assert_eq!(run.logs.len(), 0);
    assert_eq!(run.notices.len(), 0);
}

#[test]
fn invalid_utf8_is_decoded_lossily() {
    let step = relay_step(&ProcessEvent::Stdout(vec![0xff, 0x61]));
    match step.log {
        Some(LogEntry::StdoutLine(t)) => assert_eq!(t, "\u{FFFD}a"),
        other => panic!("unexpected log entry: {:?}", other),
    }
}

#[test]
fn terminated_without_code_still_escalates() {
    let step = relay_step(&ProcessEvent::Terminated(None));
    assert!(step.stop);
    assert!(matches!(step.log, Some(LogEntry::TerminationNotice(None))));
    assert!(
        matches!(step.notice, Some(Notification::Error(m)) if m == "sidecar process terminated unexpectedly")
    );
}
