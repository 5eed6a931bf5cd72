//! The process supervisor's decision core.
//!
//! `AppState` models the one shared record of the running child: the stored
//! identifier and whether the input-channel slot holds a live sink.  The
//! surrounding binary keeps the real resources (the child, its input pipe)
//! beside this state, performs the blocking calls (spawn, kill, write,
//! flush), and feeds the observed outcomes to the functions here.  Each
//! function computes the state transition, the log events to broadcast, and
//! the report for the caller, and its contract pins all three down exactly.

use vstd::prelude::*;
use crate::events::{LogEvent, OpReport, SupervisorError, event_is};
use crate::messages::{
    start_success_msg, spawn_failure_msg, already_stopped_msg, stop_success_msg, kill_failed_msg,
    kill_exec_failed_msg, empty_command_msg, not_running_msg, sent_msg, write_failed_msg,
    flush_failed_msg, start_success_text, spawn_failure_text, already_stopped_text,
    stop_success_text, kill_failed_text, kill_exec_failed_text, empty_command_text,
    not_running_text, sent_text, write_failed_text, flush_failed_text,
};
use crate::text::{NL, trim_ws, trim_bytes};

verus! {

/// The shared supervisor state: the sole source of truth for "is something
/// running".  `server_pid` is the stored identifier of the child, if any;
/// `input_open` says whether the input-channel slot holds a live sink.
#[derive(Debug)]
pub struct AppState {
    pub server_pid: Option<u32>,
    pub input_open: bool,
}

/// A caller-supplied request to forward one command to the child's input.
/// Transient: validated, used, never stored.
#[derive(Debug)]
pub struct CommandPayload {
    pub command: String,
}

/// What a stop operation decided after atomically taking the identifier.
#[derive(Debug)]
pub enum StopDecision {
    /// Nothing was running: the operation is already complete.
    AlreadyStopped { report: OpReport },
    /// A child is recorded: the caller must issue a termination request
    /// against this identifier and hand the outcome to `finish_stop`.
    KillRequired { identifier: u32 },
}

/// What the caller observed when issuing the termination request.
#[derive(Debug)]
pub enum KillOutcome {
    /// The request ran and the operating system reported success.
    Succeeded,
    /// The request ran but reported failure; carries its error output.
    Unsuccessful { stderr: Vec<u8> },
    /// The request could not be issued at all.
    RequestFailed { error: Vec<u8> },
}

/// What a send operation decided before touching the input channel.
#[derive(Debug)]
pub enum SendDecision {
    /// The command was empty after trimming: rejected with no side effect.
    Rejected { report: OpReport },
    /// No input channel is open: a conflict, also announced on the log
    /// channel.
    NotRunning { report: OpReport },
    /// Forward the command: broadcast `echo`, then write `wire` to the
    /// input channel as one contiguous write and flush.
    Forward { wire: Vec<u8>, echo: LogEvent },
}

/// What the caller observed when writing the wire bytes to the input channel.
#[derive(Debug)]
pub enum WriteOutcome {
    /// The write and the flush both completed.
    Completed,
    /// The write itself failed; carries the underlying error text.
    WriteFailed { error: Vec<u8> },
    /// The write completed but the flush failed.
    FlushFailed { error: Vec<u8> },
}

/// Exactly what recording a successful spawn does: both handle slots are
/// populated, the report carries the success body naming the identifier, and
/// nothing is broadcast.
pub open spec fn spawn_ok_post(pre: AppState, id: Option<u32>, post: AppState, r: OpReport) -> bool {
    &&& post.server_pid == id
    &&& post.input_open
    &&& (r.outcome matches Ok(m) && m@ == start_success_msg(id))
    &&& r.events@.len() == 0
}

/// Exactly what recording a failed spawn does: the input-channel slot is
/// cleared so no stale sink is left writable, the identifier is untouched,
/// the report carries a spawn failure with the underlying error text, and
/// nothing is broadcast.
pub open spec fn spawn_err_post(pre: AppState, e: Seq<u8>, post: AppState, r: OpReport) -> bool {
    &&& post.server_pid == pre.server_pid
    &&& !post.input_open
    &&& (r.outcome matches Err(SupervisorError::SpawnFailure { message }) && message@
        == spawn_failure_msg(e))
    &&& r.events@.len() == 0
}

/// Exactly what beginning a stop does.  With no identifier stored the state
/// is unchanged and the operation completes at once, successfully, with the
/// already-stopped body and no broadcast.  With an identifier stored, it is
/// read and cleared in one step and handed back for termination; the
/// input-channel slot is untouched.
pub open spec fn begin_stop_post(pre: AppState, post: AppState, d: StopDecision) -> bool {
    match pre.server_pid {
        None => {
            &&& post == pre
            &&& (d matches StopDecision::AlreadyStopped { report } && (report.outcome matches Ok(m)
                && m@ == already_stopped_msg()) && report.events@.len() == 0)
        },
        Some(p) => {
            &&& post.server_pid is None
            &&& post.input_open == pre.input_open
            &&& (d matches StopDecision::KillRequired { identifier } && identifier == p)
        },
    }
}

/// Exactly what finishing a stop does, for each termination outcome.  On
/// success the input-channel slot is cleared and a non-error event announces
/// the stop.  On either failure the identifier is restored so a retry is
/// possible, the input-channel slot is left untouched, and an error event
/// announces the failure.
pub open spec fn finish_stop_post(
    pre: AppState,
    pid: u32,
    k: KillOutcome,
    post: AppState,
    r: OpReport,
) -> bool {
    match k {
        KillOutcome::Succeeded => {
            &&& post.server_pid == pre.server_pid
            &&& !post.input_open
            &&& (r.outcome matches Ok(m) && m@ == stop_success_msg(pid))
            &&& r.events@.len() == 1
            &&& event_is(r.events@[0], stop_success_msg(pid), false)
        },
        KillOutcome::Unsuccessful { stderr } => {
            &&& post.server_pid == Some(pid)
            &&& post.input_open == pre.input_open
            &&& (r.outcome matches Err(SupervisorError::TerminationFailure { message }) && message@
                == kill_failed_msg(pid, stderr@))
            &&& r.events@.len() == 1
            &&& event_is(r.events@[0], kill_failed_msg(pid, stderr@), true)
        },
        KillOutcome::RequestFailed { error } => {
            &&& post.server_pid == Some(pid)
            &&& post.input_open == pre.input_open
            &&& (r.outcome matches Err(SupervisorError::TerminationFailure { message }) && message@
                == kill_exec_failed_msg(error@))
            &&& r.events@.len() == 1
            &&& event_is(r.events@[0], kill_exec_failed_msg(error@), true)
        },
    }
}

/// Exactly what a send decides, for every command and state.  A command that
/// is empty after trimming is rejected with no side effect.  Otherwise, with
/// no input channel open, the result is a conflict and exactly one error
/// event announcing it.  Otherwise the command is forwarded: one non-error
/// echo event carrying the trimmed command, and a wire buffer that is the
/// trimmed command followed by exactly one line terminator.
pub open spec fn send_decision_post(state: AppState, cmd: Seq<u8>, d: SendDecision) -> bool {
    let t = trim_ws(cmd);
    if t.len() == 0 {
        &&& (d matches SendDecision::Rejected { report } && (report.outcome matches Err(
            SupervisorError::ValidationFailure { message },
        ) && message@ == empty_command_msg()) && report.events@.len() == 0)
    } else if !state.input_open {
        &&& (d matches SendDecision::NotRunning { report } && (report.outcome matches Err(
            SupervisorError::NotRunningConflict { message },
        ) && message@ == not_running_msg()) && report.events@.len() == 1 && event_is(
            report.events@[0],
            not_running_msg(),
            true,
        ))
    } else {
        &&& (d matches SendDecision::Forward { wire, echo } && wire@ == t + seq![NL] && event_is(
            echo,
            t,
            false,
        ))
    }
}

/// Exactly what the send reports once the caller has performed the write:
/// success echoes the command, a write or flush failure is reported with the
/// underlying error text, and nothing further is broadcast or changed.
pub open spec fn finish_send_post(trimmed: Seq<u8>, w: WriteOutcome, r: OpReport) -> bool {
    match w {
        WriteOutcome::Completed => {
            &&& (r.outcome matches Ok(m) && m@ == sent_msg(trimmed))
            &&& r.events@.len() == 0
        },
        WriteOutcome::WriteFailed { error } => {
            &&& (r.outcome matches Err(SupervisorError::IOFailure { message }) && message@
                == write_failed_msg(error@))
            &&& r.events@.len() == 0
        },
        WriteOutcome::FlushFailed { error } => {
            &&& (r.outcome matches Err(SupervisorError::IOFailure { message }) && message@
                == flush_failed_msg(error@))
            &&& r.events@.len() == 0
        },
    }
}

impl AppState {
    /// A fresh supervisor: nothing running, no input channel.
    pub fn new() -> (s: AppState)
        ensures
            s.server_pid is None,
            !s.input_open,
    {
        AppState { server_pid: None, input_open: false }
    }

    /// Records a successful spawn: stores the new input channel and the new
    /// identifier, and reports success naming the identifier.  The two
    /// output-channel streamers are launched by the caller alongside this.
    ///
    /// Deliberately takes no precondition on the current state: starting
    /// while a child is already recorded overwrites the record, silently
    /// orphaning the previous child and its streamers.  The design accepts
    /// this gap rather than rejecting a second start.
    pub fn record_spawn_success(&mut self, identifier: Option<u32>) -> (r: OpReport)
        ensures
            spawn_ok_post(*old(self), identifier, *final(self), r),
    {
        self.input_open = true;
        self.server_pid = identifier;
        OpReport { outcome: Ok(start_success_text(identifier)), events: Vec::new() }
    }

    /// Records a failed spawn: clears the input-channel slot so no stale
    /// sink is left writable, and reports the spawn error.
    pub fn record_spawn_failure(&mut self, error: &[u8]) -> (r: OpReport)
        ensures
            spawn_err_post(*old(self), error@, *final(self), r),
    {
        self.input_open = false;
        OpReport {
            outcome: Err(SupervisorError::SpawnFailure { message: spawn_failure_text(error) }),
            events: Vec::new(),
        }
    }

    /// Begins a stop: atomically reads and clears the stored identifier.
    /// With none stored the stop is already complete and succeeds; with one
    /// stored the caller must issue the termination request.
    pub fn begin_stop(&mut self) -> (d: StopDecision)
        ensures
            begin_stop_post(*old(self), *final(self), d),
    {
        match self.server_pid {
            None => StopDecision::AlreadyStopped {
                report: OpReport { outcome: Ok(already_stopped_text()), events: Vec::new() },
            },
            Some(p) => {
                self.server_pid = None;
                StopDecision::KillRequired { identifier: p }
            },
        }
    }

    /// Finishes a stop with the outcome of the termination request.  On
    /// success the input-channel slot is cleared; on failure the identifier
    /// is restored so a later stop can retry, and the input channel is left
    /// untouched.
    pub fn finish_stop(&mut self, identifier: u32, kill: KillOutcome) -> (r: OpReport)
        ensures
            finish_stop_post(*old(self), identifier, kill, *final(self), r),
    {
        match kill {
            KillOutcome::Succeeded => {
                self.input_open = false;
                let mut events: Vec<LogEvent> = Vec::new();
                events.push(LogEvent { message: stop_success_text(identifier), is_error: false });
                OpReport { outcome: Ok(stop_success_text(identifier)), events }
            },
            KillOutcome::Unsuccessful { stderr } => {
                self.server_pid = Some(identifier);
                let mut events: Vec<LogEvent> = Vec::new();
                events.push(
                    LogEvent {
                        message: kill_failed_text(identifier, stderr.as_slice()),
                        is_error: true,
                    },
                );
                OpReport {
                    outcome: Err(
                        SupervisorError::TerminationFailure {
                            message: kill_failed_text(identifier, stderr.as_slice()),
                        },
                    ),
                    events,
                }
            },
            KillOutcome::RequestFailed { error } => {
                self.server_pid = Some(identifier);
                let mut events: Vec<LogEvent> = Vec::new();
                events.push(
                    LogEvent {
                        message: kill_exec_failed_text(error.as_slice()),
                        is_error: true,
                    },
                );
                OpReport {
                    outcome: Err(
                        SupervisorError::TerminationFailure {
                            message: kill_exec_failed_text(error.as_slice()),
                        },
                    ),
                    events,
                }
            },
        }
    }

    /// Decides a send: validates the command, checks for a live input
    /// channel, and on acceptance produces the echo event and the exact
    /// bytes to write.  This call itself changes nothing and writes nothing.
    pub fn send_command(&self, command: &[u8]) -> (d: SendDecision)
        ensures
            send_decision_post(*self, command@, d),
    {
        let trimmed = trim_bytes(command);
        if trimmed.len() == 0 {
            SendDecision::Rejected {
                report: OpReport {
                    outcome: Err(
                        SupervisorError::ValidationFailure { message: empty_command_text() },
                    ),
                    events: Vec::new(),
                },
            }
        } else if !self.input_open {
            let mut events: Vec<LogEvent> = Vec::new();
            events.push(LogEvent { message: not_running_text(), is_error: true });
            SendDecision::NotRunning {
                report: OpReport {
                    outcome: Err(
                        SupervisorError::NotRunningConflict { message: not_running_text() },
                    ),
                    events,
                },
            }
        } else {
            let echo_text = trim_bytes(command);
            let mut wire = trimmed;
            wire.push(NL);
            proof {
                assert(trim_ws(command@).push(NL) =~= trim_ws(command@) + seq![NL]);
            }
            SendDecision::Forward {
                wire,
                echo: LogEvent { message: echo_text, is_error: false },
            }
        }
    }

    /// Decides a send for a caller-supplied payload, working on the bytes of
    /// its command text.
    pub fn send_command_payload(&self, payload: &CommandPayload) -> (d: SendDecision)
        ensures
            send_decision_post(*self, vstd::utf8::encode_utf8(payload.command@), d),
    {
        let bytes = payload.command.as_str().as_bytes_vec();
        self.send_command(bytes.as_slice())
    }
}

/// Reports the send once the caller has written (or failed to write) the
/// wire bytes.  `trimmed` is the validated command text that was forwarded.
/// The state is deliberately not touched: after an input-channel failure the
/// identifier still reads as running, so a retry or a later stop behaves as
/// if the process were alive.
pub fn finish_send(trimmed: &[u8], write: WriteOutcome) -> (r: OpReport)
    ensures
        finish_send_post(trimmed@, write, r),
{
    match write {
        WriteOutcome::Completed => OpReport {
            outcome: Ok(sent_text(trimmed)),
            events: Vec::new(),
        },
        WriteOutcome::WriteFailed { error } => OpReport {
            outcome: Err(
                SupervisorError::IOFailure { message: write_failed_text(error.as_slice()) },
            ),
            events: Vec::new(),
        },
        WriteOutcome::FlushFailed { error } => OpReport {
            outcome: Err(
                SupervisorError::IOFailure { message: flush_failed_text(error.as_slice()) },
            ),
            events: Vec::new(),
        },
    }
}

/// Stopping when nothing is running is idempotent: the state is unchanged,
/// the operation succeeds with the already-stopped body, and no event — in
/// particular no termination-failure event — is broadcast.
pub proof fn lemma_stop_idempotent(s0: AppState, s1: AppState, d: StopDecision)
    requires
        s0.server_pid is None,
        begin_stop_post(s0, s1, d),
    ensures
        s1 == s0,
        d matches StopDecision::AlreadyStopped { report } && (report.outcome matches Ok(m) && m@
            == already_stopped_msg()) && report.events@.len() == 0,
{
}

/// After a successful start, a command that is non-empty after trimming is
/// forwarded: the decision carries exactly one echo event, non-error, whose
/// message is the trimmed command, produced before any write, and the wire
/// is that message followed by the line terminator.
pub proof fn lemma_start_then_command(
    s0: AppState,
    id: Option<u32>,
    s1: AppState,
    r: OpReport,
    cmd: Seq<u8>,
    d: SendDecision,
)
    requires
        spawn_ok_post(s0, id, s1, r),
        send_decision_post(s1, cmd, d),
        trim_ws(cmd).len() > 0,
    ensures
        d matches SendDecision::Forward { wire, echo } && event_is(echo, trim_ws(cmd), false)
            && wire@ == trim_ws(cmd) + seq![NL],
{
}

/// A command that is empty after trimming is rejected as a validation
/// failure in every state, with zero events and no bytes to write.
pub proof fn lemma_empty_command_rejected(s: AppState, cmd: Seq<u8>, d: SendDecision)
    requires
        send_decision_post(s, cmd, d),
        trim_ws(cmd).len() == 0,
    ensures
        d matches SendDecision::Rejected { report } && (report.outcome matches Err(
            SupervisorError::ValidationFailure { message },
        ) && message@ == empty_command_msg()) && report.events@.len() == 0,
{
}

/// On a fresh supervisor that never started a process, any well-formed
/// command fails with a not-running conflict and produces exactly one error
/// event carrying the not-running message.
pub proof fn lemma_fresh_supervisor_conflict(s: AppState, cmd: Seq<u8>, d: SendDecision)
    requires
        s.server_pid is None,
        !s.input_open,
        trim_ws(cmd).len() > 0,
        send_decision_post(s, cmd, d),
    ensures
        d matches SendDecision::NotRunning { report } && (report.outcome matches Err(
            SupervisorError::NotRunningConflict { message },
        ) && message@ == not_running_msg()) && report.events@.len() == 1 && event_is(
            report.events@[0],
            not_running_msg(),
            true,
        ),
{
}

/// If the termination request for identifier `p` failed, the supervisor
/// still holds exactly `p` — the identifier is retained, not lost — and a
/// subsequent stop decides to attempt termination of the same `p` again.
pub proof fn lemma_stop_retry(
    s0: AppState,
    p: u32,
    s1: AppState,
    d1: StopDecision,
    k: KillOutcome,
    s2: AppState,
    r: OpReport,
    s3: AppState,
    d2: StopDecision,
)
    requires
        s0.server_pid == Some(p),
        begin_stop_post(s0, s1, d1),
        !(k is Succeeded),
        finish_stop_post(s1, p, k, s2, r),
        begin_stop_post(s2, s3, d2),
    ensures
        s2.server_pid == Some(p),
        r.outcome is Err,
        d2 matches StopDecision::KillRequired { identifier } && identifier == p,
{
}

/// Every accepted command reaches the input channel as one contiguous
/// buffer: the trimmed command followed by exactly one line terminator, and
/// nothing else.  Freedom from interleaving between two concurrent sends
/// then rests on the caller writing each such buffer under one hold of the
/// input-channel lock.
pub proof fn lemma_command_wire_contiguous(s: AppState, cmd: Seq<u8>, d: SendDecision)
    requires
        send_decision_post(s, cmd, d),
        d is Forward,
    ensures
        d matches SendDecision::Forward { wire, echo } && wire@ == trim_ws(cmd) + seq![NL]
            && wire@.len() == trim_ws(cmd).len() + 1 && wire@.last() == NL,
{
}

} // verus!
