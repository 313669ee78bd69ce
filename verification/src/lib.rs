//! Lifecycle supervision for a locally spawned backend service.
//!
//! The crate models the startup and shutdown of a single sidecar process:
//! a health probe classifies one bounded HTTP request, a readiness poller
//! retries the probe up to a configured budget, a process supervisor owns
//! the child handle, a shutdown coordinator tries a graceful stop and falls
//! back to a forced kill, and a lifecycle orchestrator ties the pieces into
//! one state machine. A separate module maps key-combination text to
//! keyboard events for the companion keystroke utility.
//!
//! All I/O (the HTTP requests, the actual spawn and kill, sleeping between
//! attempts) is performed by the embedding program, which feeds the plain
//! outcomes of those calls into the verified logic here.

pub mod endpoint;
pub mod keymap;
pub mod orchestrator;
pub mod poller;
pub mod probe;
pub mod shutdown;
pub mod supervisor;
