//! The status and failure texts that the supervisor reports and broadcasts.
//! Each text has a specification-level form (a byte sequence) and a builder
//! proved to produce exactly that form.

use vstd::prelude::*;
use vstd::string::StrSliceExecFns;
use vstd::string::StringSliceAdditionalSpecFns;
use crate::text::decimal_digits;

verus! {

/// The identifier part of a start report: the decimal digits of the
/// identifier, or a sentinel when the platform supplied none.
pub open spec fn pid_text(id: Option<u32>) -> Seq<u8> {
    match id {
        Some(p) => decimal_digits(p as nat),
        None => "no pid".spec_bytes(),
    }
}

/// Success body of a start: names the new identifier.
pub open spec fn start_success_msg(id: Option<u32>) -> Seq<u8> {
    "Server started (PID: ".spec_bytes() + pid_text(id) + ")".spec_bytes()
}

/// Failure body of a start: the spawn error text.
pub open spec fn spawn_failure_msg(e: Seq<u8>) -> Seq<u8> {
    "Error starting server: ".spec_bytes() + e
}

/// Success body of a stop that found nothing to do.
pub open spec fn already_stopped_msg() -> Seq<u8> {
    "Server is already stopped or was never started.".spec_bytes()
}

/// Success body of a stop whose termination request succeeded.
pub open spec fn stop_success_msg(pid: u32) -> Seq<u8> {
    "Server stopped successfully. (PID: ".spec_bytes() + decimal_digits(pid as nat)
        + ")".spec_bytes()
}

/// Failure body of a stop whose termination request ran but reported failure.
pub open spec fn kill_failed_msg(pid: u32, stderr: Seq<u8>) -> Seq<u8> {
    "Failed to stop server (PID: ".spec_bytes() + decimal_digits(pid as nat)
        + ". Error: ".spec_bytes() + stderr
}

/// Failure body of a stop whose termination request could not be issued.
pub open spec fn kill_exec_failed_msg(e: Seq<u8>) -> Seq<u8> {
    "Failed to execute kill command: ".spec_bytes() + e
}

/// Rejection body for an empty or whitespace command.
pub open spec fn empty_command_msg() -> Seq<u8> {
    "Command cannot be empty.".spec_bytes()
}

/// Broadcast and conflict body when no process is running.
pub open spec fn not_running_msg() -> Seq<u8> {
    "Server process is not running or stdin is closed.".spec_bytes()
}

/// Success body of a send: echoes the trimmed command.
pub open spec fn sent_msg(cmd: Seq<u8>) -> Seq<u8> {
    "Command '".spec_bytes() + cmd + "' sent.".spec_bytes()
}

/// Failure body when the write to the input channel failed.
pub open spec fn write_failed_msg(e: Seq<u8>) -> Seq<u8> {
    "Failed to write to stdin: ".spec_bytes() + e
}

/// Failure body when the flush of the input channel failed.
pub open spec fn flush_failed_msg(e: Seq<u8>) -> Seq<u8> {
    "Failed to flush stdin: ".spec_bytes() + e
}

/// Builds the identifier part of a start report.
pub fn pid_text_bytes(id: Option<u32>) -> (r: Vec<u8>)
    ensures
        r@ == pid_text(id),
{
    match id {
        Some(p) => crate::text::u32_decimal(p),
        None => "no pid".as_bytes_vec(),
    }
}

/// Builds the success body of a start.
pub fn start_success_text(id: Option<u32>) -> (r: Vec<u8>)
    ensures
        r@ == start_success_msg(id),
{
    let mut r = "Server started (PID: ".as_bytes_vec();
    let mut mid = pid_text_bytes(id);
    let mut tail = ")".as_bytes_vec();
    r.append(&mut mid);
    r.append(&mut tail);
    r
}

/// Builds the failure body of a start.
pub fn spawn_failure_text(e: &[u8]) -> (r: Vec<u8>)
    ensures
        r@ == spawn_failure_msg(e@),
{
    let mut r = "Error starting server: ".as_bytes_vec();
    let mut tail = vstd::slice::slice_to_vec(e);
    r.append(&mut tail);
    r
}

/// Builds the success body of a stop that found nothing to do.
pub fn already_stopped_text() -> (r: Vec<u8>)
    ensures
        r@ == already_stopped_msg(),
{
    "Server is already stopped or was never started.".as_bytes_vec()
}

/// Builds the success body of a stop whose termination request succeeded.
pub fn stop_success_text(pid: u32) -> (r: Vec<u8>)
    ensures
        r@ == stop_success_msg(pid),
{
    let mut r = "Server stopped successfully. (PID: ".as_bytes_vec();
    let mut mid = crate::text::u32_decimal(pid);
    let mut tail = ")".as_bytes_vec();
    r.append(&mut mid);
    r.append(&mut tail);
    r
}

/// Builds the failure body of a stop whose termination request reported
/// failure.
pub fn kill_failed_text(pid: u32, stderr: &[u8]) -> (r: Vec<u8>)
    ensures
        r@ == kill_failed_msg(pid, stderr@),
{
    let mut r = "Failed to stop server (PID: ".as_bytes_vec();
    let mut mid = crate::text::u32_decimal(pid);
    let mut sep = ". Error: ".as_bytes_vec();
    let mut tail = vstd::slice::slice_to_vec(stderr);
    r.append(&mut mid);
    r.append(&mut sep);
    r.append(&mut tail);
    r
}

/// Builds the failure body of a stop whose termination request could not be
/// issued.
pub fn kill_exec_failed_text(e: &[u8]) -> (r: Vec<u8>)
    ensures
        r@ == kill_exec_failed_msg(e@),
{
    let mut r = "Failed to execute kill command: ".as_bytes_vec();
    let mut tail = vstd::slice::slice_to_vec(e);
    r.append(&mut tail);
    r
}

/// Builds the rejection body for an empty or whitespace command.
pub fn empty_command_text() -> (r: Vec<u8>)
    ensures
        r@ == empty_command_msg(),
{
    "Command cannot be empty.".as_bytes_vec()
}

/// Builds the body reporting that no process is running.
pub fn not_running_text() -> (r: Vec<u8>)
    ensures
        r@ == not_running_msg(),
{
    "Server process is not running or stdin is closed.".as_bytes_vec()
}

/// Builds the success body of a send.
pub fn sent_text(cmd: &[u8]) -> (r: Vec<u8>)
    ensures
        r@ == sent_msg(cmd@),
{
    let mut r = "Command '".as_bytes_vec();
    let mut mid = vstd::slice::slice_to_vec(cmd);
    let mut tail = "' sent.".as_bytes_vec();
    r.append(&mut mid);
    r.append(&mut tail);
    r
}

/// Builds the failure body for a failed write to the input channel.
pub fn write_failed_text(e: &[u8]) -> (r: Vec<u8>)
    ensures
        r@ == write_failed_msg(e@),
{
    let mut r = "Failed to write to stdin: ".as_bytes_vec();
    let mut tail = vstd::slice::slice_to_vec(e);
    r.append(&mut tail);
    r
}

/// Builds the failure body for a failed flush of the input channel.
pub fn flush_failed_text(e: &[u8]) -> (r: Vec<u8>)
    ensures
        r@ == flush_failed_msg(e@),
{
    let mut r = "Failed to flush stdin: ".as_bytes_vec();
    let mut tail = vstd::slice::slice_to_vec(e);
    r.append(&mut tail);
    r
}

} // verus!
