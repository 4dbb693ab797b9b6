//! A reaction-driven session engine.
//!
//! Many reaction events on chat messages drive one state machine per session.
//! The truth about a session is an append-only log of records; a bounded
//! cache speeds up repeated access; a lockout set guarantees that at most one
//! change per session is in flight at any time.
//!
//! The engine performs no input or output. Its functions decide; the caller
//! reads the log, runs the state machine, talks to the chat platform, and
//! reports back what happened.

pub mod headers;
pub mod holder;
pub mod laws;
pub mod log;
pub mod models;
pub mod names;
pub mod rpg;
pub mod shim;
pub mod util;
pub mod world;
