//! Core of a sidecar process supervisor: a desktop shell launches a backend
//! server process, tracks its lifecycle, discovers its listening port through
//! a side-channel file, and polls a health endpoint until the backend is
//! ready, reporting readiness or failure as notifications.

pub mod notify;
pub mod port;
pub mod prober;
pub mod relay;
pub mod slot;
