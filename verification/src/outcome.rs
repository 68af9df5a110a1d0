//! Error Classifier: the small failure taxonomy of one dispatch, and the
//! mapping from low-level launch observations into it.
//!
//! Every failure carries (or maps to) a human-readable cause and always
//! surfaces to the Selection Dispatcher's aggregation step.

use vstd::prelude::*;

use crate::flags::invalid_bool_msg;

verus! {

/// A classified failure of the dispatch operation or of one target object.
#[derive(Clone, Debug, PartialEq, Eq)]
pub enum ExecError {
    /// No active cluster context: a precondition failure, fatal to the whole
    /// batch.
    NoContext,
    /// The target object is not an eligible kind: a per-object precondition
    /// failure.
    NotAPod,
    /// A malformed boolean flag value: a configuration-time validation
    /// failure, detected before any launch.
    InvalidFlagValue,
    /// The wrapped binary was not found on the search path.
    BinaryMissing,
    /// The child ran but exited with a non-success status (inline strategy
    /// only; no exit-code detail is preserved at this layer).
    AbnormalExit,
    /// Any other failure starting the child, carrying the underlying cause.
    Io(String),
}

impl ExecError {
    /// The human-readable message of this failure.
    pub open spec fn message_spec(&self) -> Seq<char> {
        match self {
            ExecError::NoContext => "Need an active context in order to exec."@,
            ExecError::NotAPod => "Exec only possible on pods"@,
            ExecError::InvalidFlagValue => invalid_bool_msg(),
            ExecError::BinaryMissing => "Could not find kubectl binary. Is it in your PATH?"@,
            ExecError::AbnormalExit => "kubectl exited abnormally"@,
            ExecError::Io(cause) => cause@,
        }
    }

    /// Returns the human-readable message of this failure.
    pub fn message(&self) -> (m: String)
        ensures
            m@ == self.message_spec(),
    {
        match self {
            ExecError::NoContext => "Need an active context in order to exec.".to_owned(),
            ExecError::NotAPod => "Exec only possible on pods".to_owned(),
            ExecError::InvalidFlagValue => "provided string was not `true` or `false`".to_owned(),
            ExecError::BinaryMissing => "Could not find kubectl binary. Is it in your PATH?"
                .to_owned(),
            ExecError::AbnormalExit => "kubectl exited abnormally".to_owned(),
            ExecError::Io(cause) => cause.clone(),
        }
    }
}

/// What the inline strategy observed of one child: it exited (successfully
/// or not), the program was not found, or starting it failed some other way.
#[derive(Clone, Debug, PartialEq, Eq)]
pub enum RunEvent {
    /// The child ran to completion; the payload is whether its exit status
    /// reported success.
    Exited(bool),
    /// The program could not be found on the search path.
    LaunchNotFound,
    /// Any other launch-time failure, carrying the underlying cause.
    LaunchIo(String),
}

/// What the spawned-terminal strategy observed: the detached child started,
/// or starting it failed.
#[derive(Clone, Debug, PartialEq, Eq)]
pub enum SpawnEvent {
    /// The detached process was observed to have started; nothing later is
    /// observable.
    Started,
    /// Starting the detached process failed, carrying the underlying cause.
    SpawnFailed(String),
}

/// The classification of an inline-strategy observation: success exactly on
/// a successful exit; a non-success exit is an abnormal exit; a missing
/// binary and any other launch fault keep their own classes.
pub open spec fn classify_run_spec(e: RunEvent) -> Result<(), ExecError> {
    match e {
        RunEvent::Exited(success) => if success {
            Ok(())
        } else {
            Err(ExecError::AbnormalExit)
        },
        RunEvent::LaunchNotFound => Err(ExecError::BinaryMissing),
        RunEvent::LaunchIo(cause) => Err(ExecError::Io(cause)),
    }
}

/// Classifies an inline-strategy observation per [`classify_run_spec`].
pub fn classify_run_event(e: RunEvent) -> (r: Result<(), ExecError>)
    ensures
        r == classify_run_spec(e),
{
    match e {
        RunEvent::Exited(success) => if success {
            Ok(())
        } else {
            Err(ExecError::AbnormalExit)
        },
        RunEvent::LaunchNotFound => Err(ExecError::BinaryMissing),
        RunEvent::LaunchIo(cause) => Err(ExecError::Io(cause)),
    }
}

/// The classification of a spawned-terminal observation: success as soon as
/// the detached process started, whatever it later does; a start failure is
/// reported with its underlying cause.
pub open spec fn classify_spawn_spec(e: SpawnEvent) -> Result<(), ExecError> {
    match e {
        SpawnEvent::Started => Ok(()),
        SpawnEvent::SpawnFailed(cause) => Err(ExecError::Io(cause)),
    }
}

/// Classifies a spawned-terminal observation per [`classify_spawn_spec`].
pub fn classify_spawn_event(e: SpawnEvent) -> (r: Result<(), ExecError>)
    ensures
        r == classify_spawn_spec(e),
{
    match e {
        SpawnEvent::Started => Ok(()),
        SpawnEvent::SpawnFailed(cause) => Err(ExecError::Io(cause)),
    }
}

/// The failures the inline strategy can report: a missing binary, an
/// abnormal exit, or another launch fault.
pub open spec fn inline_outcome_shape(r: Result<(), ExecError>) -> bool {
    match r {
        Ok(u) => true,
        Err(e) => e is BinaryMissing || e is AbnormalExit || e is Io,
    }
}

/// The failures the spawned-terminal strategy can report: only a launch
/// fault; once the detached process has started, nothing later is observed.
pub open spec fn spawned_outcome_shape(r: Result<(), ExecError>) -> bool {
    match r {
        Ok(u) => true,
        Err(e) => e is Io,
    }
}

/// The failures one object's pipeline can report under the chosen strategy.
pub open spec fn pipeline_outcome_shape(r: Result<(), ExecError>, use_terminal: bool) -> bool {
    if use_terminal {
        spawned_outcome_shape(r)
    } else {
        inline_outcome_shape(r)
    }
}

} // verus!
