//! Remote-command dispatch engine for an interactive cluster-object browser.
//!
//! Given a user-issued exec request, this library resolves interactive-attach
//! semantics, builds the external `kubectl` invocation for a cluster-scoped
//! object, runs it either inline (blocking, sharing the session's streams) or
//! detached inside a spawned terminal, and fans the operation out across a
//! possibly-multi-object selection, aggregating per-object failures without
//! aborting the whole batch.

pub mod dispatch;
pub mod flags;
pub mod invocation;
pub mod launch;
pub mod outcome;
