//! Notifications delivered to the user-facing layer's publish-style sink.

use vstd::prelude::*;

verus! {

/// Outcome reported to the user-facing layer: the backend became reachable on
/// a port, or supervision failed with a human-readable message.
#[derive(Debug)]
pub enum Notification {
    Ready(u16),
    Error(String),
}

/// Message published when the sidecar process ends while it is still expected
/// to be running.
pub open spec fn terminated_msg() -> Seq<char> {
    "sidecar process terminated unexpectedly"@
}

/// Message published when every health-check attempt has been used up.
pub open spec fn health_failed_msg() -> Seq<char> {
    "backend health check failed after 30 retries"@
}

/// Holds when a notification is an error carrying exactly the message `m`.
pub open spec fn is_error_with(n: Notification, m: Seq<char>) -> bool {
    n matches Notification::Error(s) && s@ == m
}

/// Holds when a notification reports readiness on port `p`.
pub open spec fn is_ready_on(n: Notification, p: u16) -> bool {
    n == Notification::Ready(p)
}

/// The message text for an unexpected sidecar termination.
pub fn terminated_message() -> (s: String)
    ensures
        s@ == terminated_msg(),
{
    "sidecar process terminated unexpectedly".to_owned()
}

/// The message text for an exhausted health-check budget.
pub fn health_failed_message() -> (s: String)
    ensures
        s@ == health_failed_msg(),
{
    "backend health check failed after 30 retries".to_owned()
}

} // verus!
