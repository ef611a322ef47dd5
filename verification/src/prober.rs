//! The health prober.
//!
//! After a fixed warm-up the prober polls the backend's health endpoint once
//! a second, up to a fixed number of attempts.  The port is resolved anew on
//! every attempt, so a backend that rewrites its port file after startup is
//! probed on the most recently observed port.  A success-class answer ends
//! probing with a readiness notification carrying the then-current port; an
//! exhausted budget ends it with a failure notification.  Issuing the
//! request, sleeping and reading the file are the caller's business: the
//! functions here decide, from what each attempt observed, what happens next.

use vstd::prelude::*;

use crate::notify::{health_failed_message, health_failed_msg, is_error_with, Notification};

verus! {

/// Greatest number of health-check attempts made before giving up.
pub const MAX_RETRIES: u32 = 30;

/// Seconds slept between two consecutive attempts.
pub const RETRY_DELAY_SECS: u64 = 1;

/// Seconds slept before the first port resolution, giving the backend time
/// to write its port file.
pub const WARMUP_SECS: u64 = 2;

/// How one probe of the health endpoint went.
#[derive(Clone, Copy, Debug)]
pub enum ProbeOutcome {
    /// The endpoint answered with a success-class status.
    Success,
    /// The endpoint answered with a status outside the success class.
    NonSuccessStatus(u16),
    /// The request could not be carried out at all.
    TransportError,
}

/// What the prober observed on one attempt: the port the file resolved to at
/// that moment, and how probing that port went.
#[derive(Clone, Copy, Debug)]
pub struct ProbeRecord {
    pub port: u16,
    pub outcome: ProbeOutcome,
}

/// What the prober does after an attempt.
#[derive(Clone, Copy, Debug, PartialEq, Eq, Structural)]
pub enum ProberDecision {
    /// Publish readiness on the probed port and stop.
    EmitReady,
    /// Sleep for the retry delay, then probe again.
    RetryAfterDelay,
    /// Publish failure and stop: the attempt budget is used up.
    EmitFailure,
}

/// Whether a status code lies in the success class.
pub open spec fn spec_success_status(code: u16) -> bool {
    200 <= code < 300
}

/// Reports whether an HTTP status code lies in the success class; only that
/// class counts as a healthy answer.
pub fn is_success_status(code: u16) -> (b: bool)
    ensures
        b == spec_success_status(code),
{
    200 <= code && code < 300
}

/// Classify the status code of an answer from the health endpoint.
pub fn outcome_of_status(code: u16) -> (o: ProbeOutcome)
    ensures
        spec_success_status(code) ==> o matches ProbeOutcome::Success,
        !spec_success_status(code) ==> o == ProbeOutcome::NonSuccessStatus(code),
{
    if is_success_status(code) {
        ProbeOutcome::Success
    } else {
        ProbeOutcome::NonSuccessStatus(code)
    }
}

/// What the prober decides after attempt number `attempt` (counted from one)
/// ends in `o`: readiness on success, another attempt while the budget
/// lasts, failure once it is spent.
pub open spec fn decision_spec(attempt: u32, o: ProbeOutcome) -> ProberDecision {
    if (o matches ProbeOutcome::Success) {
        ProberDecision::EmitReady
    } else if attempt < MAX_RETRIES {
        ProberDecision::RetryAfterDelay
    } else {
        ProberDecision::EmitFailure
    }
}

/// Decide what follows the attempt numbered `attempt` with outcome `o`.
pub fn prober_decision(attempt: u32, o: &ProbeOutcome) -> (d: ProberDecision)
    requires
        1 <= attempt <= MAX_RETRIES,
    ensures
        d == decision_spec(attempt, *o),
{
    match o {
        ProbeOutcome::Success => ProberDecision::EmitReady,
        _ => {
            if attempt < MAX_RETRIES {
                ProberDecision::RetryAfterDelay
            } else {
                ProberDecision::EmitFailure
            }
        },
    }
}

/// Everything one prober run did, given what each attempt observed.
#[derive(Debug)]
pub struct ProberRun {
    /// Number of probe attempts actually made.
    pub attempts: usize,
    /// The port probed on each attempt, in order: always the port resolved
    /// on that very attempt.
    pub probed_ports: Vec<u16>,
    /// Number of retry delays slept.
    pub delays: usize,
    /// The single terminal notification.
    pub notification: Notification,
}

/// Run the whole bounded probing loop against the per-attempt observations
/// in `records`: attempt `k` (counted from one) resolves the port
/// `records[k - 1].port` and sees that record's outcome.  The run stops at
/// the first success with a readiness notification carrying that attempt's
/// port, after a delay for every earlier attempt; where no attempt succeeds
/// it makes every attempt, sleeps after each and ends with the one failure
/// notification.
pub fn run_prober(records: &Vec<ProbeRecord>) -> (r: ProberRun)
    requires
        records@.len() == MAX_RETRIES,
    ensures
        1 <= r.attempts <= MAX_RETRIES,
        forall|j: int|
            0 <= j < r.attempts - 1 ==> !((#[trigger] records@[j]).outcome
                matches ProbeOutcome::Success),
        r.probed_ports@.len() == r.attempts,
        forall|j: int| 0 <= j < r.attempts ==> r.probed_ports@[j] == records@[j].port,
        (records@[r.attempts - 1].outcome matches ProbeOutcome::Success) ==> (r.notification
            == Notification::Ready(records@[r.attempts - 1].port) && r.delays == r.attempts - 1),
        !(records@[r.attempts - 1].outcome matches ProbeOutcome::Success) ==> (r.attempts
            == MAX_RETRIES && is_error_with(r.notification, health_failed_msg()) && r.delays
            == MAX_RETRIES),
{
    let n = records.len();
    let mut probed: Vec<u16> = Vec::new();
    let mut delays: usize = 0;
    let mut i: usize = 0;
    while i < n
        invariant
            records@.len() == MAX_RETRIES,
            n == MAX_RETRIES,
            0 <= i <= n,
            probed@.len() == i,
            forall|j: int| 0 <= j < i ==> probed@[j] == records@[j].port,
            forall|j: int|
                0 <= j < i ==> !((#[trigger] records@[j]).outcome matches ProbeOutcome::Success),
            delays == i,
        decreases n - i,
    {
        let rec = records[i];
        probed.push(rec.port);
        let d = prober_decision((i + 1) as u32, &rec.outcome);
        if d == ProberDecision::EmitReady {
            return ProberRun {
                attempts: i + 1,
                probed_ports: probed,
                delays,
                notification: Notification::Ready(rec.port),
            };
        }
        delays = delays + 1;
        i = i + 1;
    }
    ProberRun {
        attempts: n,
        probed_ports: probed,
        delays,
        notification: Notification::Error(health_failed_message()),
    }
}

} // verus!
