//! The output relay.
//!
//! The relay observes the sidecar's asynchronous output channel event by
//! event, in arrival order, and tells its caller what to write to the log.
//! Output and error lines are decoded as UTF-8 with lossy replacement and
//! passed on; a termination event is escalated as the one error notification
//! and ends consumption; a stream error is logged only; anything else is
//! ignored.  The relay never retries anything: it only observes and reports.

use vstd::prelude::*;

use crate::notify::{is_error_with, terminated_message, terminated_msg, Notification};

verus! {

/// One event observed on the sidecar's output channel.
#[derive(Debug)]
pub enum ProcessEvent {
    /// A line of standard output, as raw bytes.
    Stdout(Vec<u8>),
    /// A line of standard error, as raw bytes.
    Stderr(Vec<u8>),
    /// The process ended, with its exit code where the system reports one.
    Terminated(Option<i32>),
    /// The output channel reported an error; the stream itself goes on.
    SpawnError(String),
    /// An unrecognized event; ignored.
    Other,
}

/// A log line the relay asks its caller to write.
#[derive(Debug)]
pub enum LogEntry {
    /// Informational: a decoded line of the sidecar's standard output.
    StdoutLine(String),
    /// Error level: a decoded line of the sidecar's standard error.
    StderrLine(String),
    /// Warning level: the process terminated with the given exit code.
    TerminationNotice(Option<i32>),
    /// Error level: an error reported by the output channel itself.
    StreamError(String),
}

/// What the relay does with one event.
#[derive(Debug)]
pub struct RelayStep {
    /// The log line to write, if any.
    pub log: Option<LogEntry>,
    /// The notification to publish, if any.
    pub notice: Option<Notification>,
    /// Whether consumption of the stream ends here.
    pub stop: bool,
}

/// What the string of an uninterpreted lossy UTF-8 decode of `b` is; see
/// `lossy_decode`.
pub uninterp spec fn lossy_of(b: Seq<u8>) -> Seq<char>;

/// Relies on `String::from_utf8_lossy`: decodes UTF-8, replacing invalid
/// sequences with the replacement character; the result depends on the bytes
/// alone, and no bytes decode to no text.
#[verifier::external_body]
fn lossy_decode(b: &Vec<u8>) -> (r: String)
    ensures
        r@ == lossy_of(b@),
        b@.len() == 0 ==> r@.len() == 0,
{
    String::from_utf8_lossy(b).into_owned()
}

/// The log line `l` is the one the event `e` calls for.
pub open spec fn log_obeys(e: ProcessEvent, l: LogEntry) -> bool {
    match e {
        ProcessEvent::Stdout(b) => l matches LogEntry::StdoutLine(t) && t@ == lossy_of(b@),
        ProcessEvent::Stderr(b) => l matches LogEntry::StderrLine(t) && t@ == lossy_of(b@),
        ProcessEvent::Terminated(c) => l == LogEntry::TerminationNotice(c),
        ProcessEvent::SpawnError(m) => l matches LogEntry::StreamError(t) && t@ == m@,
        ProcessEvent::Other => false,
    }
}

/// The step `r` treats the event `e` as the relay must: the right log line,
/// a notification and a stop exactly on termination.
pub open spec fn step_obeys(e: ProcessEvent, r: RelayStep) -> bool {
    &&& (match e {
        ProcessEvent::Terminated(_) => r.stop && (r.notice matches Some(n) && is_error_with(
            n,
            terminated_msg(),
        )),
        _ => !r.stop && r.notice is None,
    })
    &&& (match e {
        ProcessEvent::Other => r.log is None,
        _ => r.log matches Some(l) && log_obeys(e, l),
    })
}

/// Handle one event of the output channel: say what to log, what to publish
/// and whether to stop consuming.
pub fn relay_step(e: &ProcessEvent) -> (r: RelayStep)
    ensures
        step_obeys(*e, r),
{
    match e {
        ProcessEvent::Stdout(b) => RelayStep {
            log: Some(LogEntry::StdoutLine(lossy_decode(b))),
            notice: None,
            stop: false,
        },
        ProcessEvent::Stderr(b) => RelayStep {
            log: Some(LogEntry::StderrLine(lossy_decode(b))),
            notice: None,
            stop: false,
        },
        ProcessEvent::Terminated(c) => RelayStep {
            log: Some(LogEntry::TerminationNotice(*c)),
            notice: Some(Notification::Error(terminated_message())),
            stop: true,
        },
        ProcessEvent::SpawnError(m) => RelayStep {
            log: Some(LogEntry::StreamError(m.clone())),
            notice: None,
            stop: false,
        },
        ProcessEvent::Other => RelayStep { log: None, notice: None, stop: false },
    }
}

/// How many of the first `k` events call for a log line: all but the ignored
/// ones.
pub open spec fn log_count(es: Seq<ProcessEvent>, k: int) -> int
    decreases k,
{
    if k <= 0 {
        0
    } else {
        log_count(es, k - 1) + (if (es[k - 1] matches ProcessEvent::Other) {
            0int
        } else {
            1int
        })
    }
}

/// The processed event `e` is served by the log `logs`: where it calls for a
/// line, that line stands at position `idx`.
pub open spec fn event_log_obeys(e: ProcessEvent, logs: Seq<LogEntry>, idx: int) -> bool {
    if (e matches ProcessEvent::Other) {
        true
    } else {
        0 <= idx < logs.len() && log_obeys(e, logs[idx])
    }
}

/// Everything one relay run produced.
#[derive(Debug)]
pub struct RelayOutcome {
    /// The log lines, in the order their events arrived.
    pub logs: Vec<LogEntry>,
    /// The notifications published; never more than one.
    pub notices: Vec<Notification>,
    /// How many events were consumed before the relay stopped.
    pub processed: usize,
}

/// Consume a whole sequence of events as the relay does: in order, stopping
/// right after the first termination event.  Exactly one error notification
/// is published, and only where a termination event was consumed; every
/// consumed event's log line is produced in order.
pub fn relay_events(events: &Vec<ProcessEvent>) -> (r: RelayOutcome)
    ensures
        r.processed <= events@.len(),
        forall|j: int|
            0 <= j < r.processed ==> (((#[trigger] events@[j]) matches ProcessEvent::Terminated(_))
                ==> j == r.processed - 1),
        r.processed == events@.len() || (events@[r.processed - 1] matches ProcessEvent::Terminated(
            _,
        )),
        (r.processed > 0 && (events@[r.processed - 1] matches ProcessEvent::Terminated(_))) ==> (
        r.notices@.len() == 1 && is_error_with(r.notices@[0], terminated_msg())),
        !(r.processed > 0 && (events@[r.processed - 1] matches ProcessEvent::Terminated(_)))
            ==> r.notices@.len() == 0,
        r.logs@.len() == log_count(events@, r.processed as int),
        forall|j: int|
            0 <= j < r.processed ==> event_log_obeys(events@[j], r.logs@, log_count(events@, j)),
{
    let mut logs: Vec<LogEntry> = Vec::new();
    let mut notices: Vec<Notification> = Vec::new();
    let mut i: usize = 0;
    let mut stopped = false;
    while i < events.len() && !stopped
        invariant
            0 <= i <= events@.len(),
            logs@.len() == log_count(events@, i as int),
            forall|j: int| 0 <= j < i ==> event_log_obeys(events@[j], logs@, log_count(events@, j)),
            forall|j: int|
                0 <= j < i ==> (((#[trigger] events@[j]) matches ProcessEvent::Terminated(_)) ==> (
                j == i - 1 && stopped)),
            stopped ==> i > 0 && (events@[i - 1] matches ProcessEvent::Terminated(_)),
            stopped ==> notices@.len() == 1 && is_error_with(notices@[0], terminated_msg()),
            !stopped ==> notices@.len() == 0,
        decreases events@.len() - i,
    {
        let ghost old_logs = logs@;
        let step = relay_step(&events[i]);
        if let Some(l) = step.log {
            logs.push(l);
        }
        if let Some(nt) = step.notice {
            notices.push(nt);
        }
        if step.stop {
            stopped = true;
        }
        proof {
            assert(log_count(events@, i + 1) == log_count(events@, i as int) + (
            if (events@[i as int] matches ProcessEvent::Other) {
                0int
            } else {
                1int
            }));
            assert forall|j: int| 0 <= j < i + 1 implies event_log_obeys(
                events@[j],
                logs@,
                log_count(events@, j),
            ) by {
                if j < i {
                    assert(event_log_obeys(events@[j], old_logs, log_count(events@, j)));
                    if !(events@[j] matches ProcessEvent::Other) {
                        assert(logs@[log_count(events@, j)] == old_logs[log_count(events@, j)]);
                    }
                } else {
                    if !(events@[i as int] matches ProcessEvent::Other) {
                        assert(log_count(events@, i as int) == old_logs.len());
                        assert(logs@[old_logs.len() as int] == logs@.last());
                    }
                }
            }
        }
        i = i + 1;
    }
    RelayOutcome { logs, notices, processed: i }
}

} // verus!
