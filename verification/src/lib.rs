//! Command-dispatch and failure-classification runtime of a desktop backup
//! application.
//!
//! Requests arriving from outside the interactive process are turned into
//! commands, serialized onto a single control path and executed against
//! shared state while a reference-counted guard keeps the process alive.
//! Failures from the interactive layer and from the backup engine are merged
//! under one reporting policy: either a user-visible message or deliberate
//! silence for user-initiated cancellation.

pub mod borg;
pub mod config;
pub mod dbus;
pub mod error;
pub mod guard;
pub mod schedule;
pub mod utils;
