//! The health prober's bounded retry loop.

use sidecar_core::notify::Notification;
use sidecar_core::prober::{
    is_success_status, outcome_of_status, prober_decision, run_prober, ProbeOutcome, ProbeRecord,
    ProberDecision, MAX_RETRIES,
};

fn records_with(head: Vec<(u16, ProbeOutcome)>) -> Vec<ProbeRecord> {
    let mut records = Vec::new();
    for (port, outcome) in head {
        records.push(ProbeRecord { port, outcome });
    }
    while records.len() < MAX_RETRIES as usize {
        records.push(ProbeRecord { port: 8080, outcome: ProbeOutcome::TransportError });
    }
    records
}

#[test]
fn success_on_third_attempt_emits_ready() {
    let records = records_with(vec![
        (8080, ProbeOutcome::TransportError),
        (8080, ProbeOutcome::NonSuccessStatus(503)),
        (8080, ProbeOutcome::Success),
    ]);
    let run = run_prober(&records);
    assert_eq!(run.attempts, 3);
    assert_eq!(run.delays, 2);
    assert!(matches!(run.notification, Notification::Ready(8080)));
    assert_eq!(run.probed_ports, vec![8080, 8080, 8080]);
}

#[test]
fn always_failing_emits_error_after_thirty_attempts() {
    let records = records_with(Vec::new());
    let run = run_prober(&records);
    assert_eq!(run.attempts, 30);
    assert_eq!(run.delays, 30);
    assert_eq!(run.probed_ports.len(), 30);
    assert!(
        matches!(run.notification, Notification::Error(m) if m == "backend health check failed after 30 retries")
    );
}

#[test]
fn port_change_between_attempts_probes_the_new_port() {
    let records = records_with(vec![
        (8080, ProbeOutcome::TransportError),
        (9091, ProbeOutcome::Success),
    ]);
    let run = run_prober(&records);
    assert_eq!(run.attempts, 2);
    assert_eq!(run.probed_ports, vec![8080, 9091]);
    assert!(matches!(run.notification, Notification::Ready(9091)));
}

#[test]
fn success_on_first_attempt_needs_no_delay() {
    let records = records_with(vec![(8080, ProbeOutcome::Success)]);
    let run = run_prober(&records);
    assert_eq!(run.attempts, 1);
    assert_eq!(run.delays, 0);
    assert!(matches!(run.notification, Notification::Ready(8080)));
}

#[test]
fn success_on_last_attempt_still_emits_ready() {
    let mut records = records_with(Vec::new());
    records[29] = ProbeRecord { port: 4444, outcome: ProbeOutcome::Success };
    let run = run_prober(&records);
    assert_eq!(run.attempts, 30);
    assert_eq!(run.delays, 29);
    assert!(matches!(run.notification, Notification::Ready(4444)));
}

#[test]
fn status_classes() {
    assert!(is_success_status(200));
    assert!(is_success_status(204));
    assert!(is_success_status(299));
    assert!(!is_success_status(199));
    assert!(!is_success_status(300));
    assert!(!is_success_status(404));
    assert!(!is_success_status(500));
}

#[test]
fn outcome_of_status_classifies() {
    assert!(matches!(outcome_of_status(204), ProbeOutcome::Success));
    assert!(matches!(outcome_of_status(503), ProbeOutcome::NonSuccessStatus(503)));
}

#[test]
fn decision_depends_on_outcome_and_budget() {
    assert_eq!(prober_decision(1, &ProbeOutcome::Success), ProberDecision::EmitReady);
    assert_eq!(prober_decision(30, &ProbeOutcome::Success), ProberDecision::EmitReady);
    assert_eq!(prober_decision(1, &ProbeOutcome::TransportError), ProberDecision::RetryAfterDelay);
    assert_eq!(
        prober_decision(29, &ProbeOutcome::NonSuccessStatus(500)),
        ProberDecision::RetryAfterDelay
    );
    assert_eq!(
        prober_decision(30, &ProbeOutcome::NonSuccessStatus(500)),
        ProberDecision::EmitFailure
    );
    assert_eq!(prober_decision(30, &ProbeOutcome::TransportError), ProberDecision::EmitFailure);
}

#[test]
fn notification_message_texts() {
    assert_eq!(
        sidecar_core::notify::terminated_message(),
        "sidecar process terminated unexpectedly"
    );
    assert_eq!(
        sidecar_core::notify::health_failed_message(),
        "backend health check failed after 30 retries"
    );
}
