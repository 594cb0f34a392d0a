//! An exclusive privacy-session lock for a remote-access host: at most one
//! remote connection at a time may hold the right to keep the local display
//! obscured. The core state machine enforces that exclusivity, drives a
//! pluggable platform backend, and guarantees that release always clears the
//! local state even when the backend's deactivation fails.

pub mod backend;
pub mod lock;
