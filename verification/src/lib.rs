//! Control plane for a single long-running child process: a verified core
//! that decides how to start it, stop it, forward text commands to its input
//! channel, and republish its output as a stream of line-delimited log events.
//!
//! The crate holds the decision logic only.  The surrounding binary performs
//! the actual process I/O (spawning, killing, writing to the input pipe,
//! reading the output pipes) and hands the observed outcomes to the verified
//! functions here, which compute the state transitions, the log events to
//! broadcast, and the reports for the caller.

pub mod events;
pub mod messages;
pub mod streamer;
pub mod supervisor;
pub mod text;
