//! Log events, the failure taxonomy of the supervisor, and the report type
//! that every supervisor operation returns.

use vstd::prelude::*;

verus! {

/// One unit of observable output: a single line of text (no trailing
/// terminator), tagged error or non-error.  Consumed by the broadcaster.
#[derive(Debug)]
pub struct LogEvent {
    pub message: Vec<u8>,
    pub is_error: bool,
}

/// Whether `e` carries exactly the message `msg` with the error tag `err`.
pub open spec fn event_is(e: LogEvent, msg: Seq<u8>, err: bool) -> bool {
    e.message@ == msg && e.is_error == err
}

/// Why a supervisor operation failed.  Each variant carries the text that the
/// caller-facing boundary reports verbatim.
#[derive(Debug)]
pub enum SupervisorError {
    /// The operating system refused or failed to create the child process.
    SpawnFailure { message: Vec<u8> },
    /// The caller-supplied command was empty or whitespace.
    ValidationFailure { message: Vec<u8> },
    /// An operation that needs a live process found none.
    NotRunningConflict { message: Vec<u8> },
    /// The termination request failed or errored; the identifier is retained
    /// so that a later stop can retry.
    TerminationFailure { message: Vec<u8> },
    /// Writing or flushing the input channel failed.
    IOFailure { message: Vec<u8> },
}

impl SupervisorError {
    /// The text carried by this failure.
    pub open spec fn spec_message(self) -> Seq<u8> {
        match self {
            SupervisorError::SpawnFailure { message } => message@,
            SupervisorError::ValidationFailure { message } => message@,
            SupervisorError::NotRunningConflict { message } => message@,
            SupervisorError::TerminationFailure { message } => message@,
            SupervisorError::IOFailure { message } => message@,
        }
    }

    /// Hands out the failure text for display.
    pub fn message(&self) -> (r: &Vec<u8>)
        ensures
            r@ == self.spec_message(),
    {
        match self {
            SupervisorError::SpawnFailure { message } => message,
            SupervisorError::ValidationFailure { message } => message,
            SupervisorError::NotRunningConflict { message } => message,
            SupervisorError::TerminationFailure { message } => message,
            SupervisorError::IOFailure { message } => message,
        }
    }
}

/// What one supervisor operation produced: the caller-facing outcome (a
/// success body or a failure) and the log events to hand to the broadcaster,
/// in order.
#[derive(Debug)]
pub struct OpReport {
    pub outcome: Result<Vec<u8>, SupervisorError>,
    pub events: Vec<LogEvent>,
}

} // verus!
