//! Execution Strategies: run a built invocation and report the outcome.
//!
//! The Inline strategy blocks on the child with the session's standard
//! streams shared; the Spawned-Terminal strategy starts the child detached
//! and reports success on launch alone. The launches themselves go through
//! trusted wrappers around `duct`; everything observed of them is classified
//! by verified code.

use vstd::prelude::*;

use crate::invocation::Invocation;
use crate::outcome::{
    classify_run_event, classify_run_spec, classify_spawn_event, classify_spawn_spec, ExecError,
    RunEvent, SpawnEvent, inline_outcome_shape, spawned_outcome_shape,
};
use std::io::Write;
use vstd::string::StringExecFns;

verus! {

/// Relies on `duct::cmd(..).unchecked().run()`: starts the program with the
/// session's standard streams inherited, blocks until it exits, and returns
/// its status; with `unchecked`, `run` itself fails only when the child
/// could not be started, and a not-found program surfaces as the not-found
/// error kind.
#[verifier::external_body]
fn run_child_blocking(argv: &Vec<String>) -> (e: RunEvent)
    requires
        argv@.len() >= 1,
{
    match duct::cmd(&argv[0], argv[1..].iter()).unchecked().run() {
        Ok(output) => RunEvent::Exited(output.status.success()),
        Err(err) => {
            if err.kind() == std::io::ErrorKind::NotFound {
                RunEvent::LaunchNotFound
            } else {
                RunEvent::LaunchIo(err.to_string())
            }
        },
    }
}

/// Relies on `duct::cmd(..).start()`: starts the program detached, without
/// sharing the session's streams or waiting on it; dropping the returned
/// handle leaves the child running.
#[verifier::external_body]
fn spawn_child_detached(argv: &Vec<String>) -> (e: SpawnEvent)
    requires
        argv@.len() >= 1,
{
    match duct::cmd(&argv[0], argv[1..].iter()).start() {
        Ok(_handle) => SpawnEvent::Started,
        Err(err) => SpawnEvent::SpawnFailed(err.to_string()),
    }
}

/// Relies on `std::io::stdout`: writes one line to the session's output
/// sink.
#[verifier::external_body]
pub(crate) fn emit_line(line: &str) {
    let _ = writeln!(std::io::stdout(), "{}", line);
}

/// Runs an invocation inline: blocking, attached to the session's streams.
/// Success is owed exactly when the child exits successfully; every failure
/// is classified per [`classify_run_spec`], so only a missing binary, an
/// abnormal exit or another launch fault can come back.
pub fn execute_inline(inv: &Invocation) -> (r: Result<(), ExecError>)
    requires
        inv@.len() >= 1,
    ensures
        inline_outcome_shape(r),
        exists|e: RunEvent| r == classify_run_spec(e),
{
    assert(inv.argv@.len() == inv@.len());
    let e = run_child_blocking(&inv.argv);
    let ghost ge = e;
    let r = classify_run_event(e);
    assert(r == classify_run_spec(ge));
    r
}

/// Runs an invocation detached in a spawned terminal: a status line naming
/// the target object is emitted first (the spawn is otherwise silent), then
/// the child is started and not waited on. Success is reported on launch
/// alone; a start failure is classified per [`classify_spawn_spec`], so only
/// a launch fault can come back.
pub fn execute_spawned(inv: &Invocation, object_name: &str) -> (r: Result<(), ExecError>)
    requires
        inv@.len() >= 1,
    ensures
        spawned_outcome_shape(r),
        exists|e: SpawnEvent| r == classify_spawn_spec(e),
{
    let mut line: String = "Starting on ".to_owned();
    line.append(object_name);
    line.append(" in terminal");
    emit_line(line.as_str());
    assert(inv.argv@.len() == inv@.len());
    let e = spawn_child_detached(&inv.argv);
    let ghost ge = e;
    let r = classify_spawn_event(e);
    assert(r == classify_spawn_spec(ge));
    r
}

} // verus!
