use process_console::events::SupervisorError;
use process_console::supervisor::{
    finish_send, AppState, CommandPayload, KillOutcome, SendDecision, StopDecision, WriteOutcome,
};

#[test]
fn stop_when_idle_is_idempotent_success() {
    let mut s = AppState::new();
    match s.begin_stop() {
        StopDecision::AlreadyStopped { report } => {
            let body = report.outcome.expect("idle stop must succeed");
            assert_eq!(body, b"Server is already stopped or was never started.".to_vec());
            assert_eq!(report.events.len(), 0);
        }
        StopDecision::KillRequired { .. } => panic!("nothing was running"),
    }
    assert!(s.server_pid.is_none());
    assert!(!s.input_open);
}

#[test]
fn start_then_command_echoes_before_write() {
    let mut s = AppState::new();
    let started = s.record_spawn_success(Some(42));
    assert_eq!(started.outcome.expect("start succeeded"), b"Server started (PID: 42)".to_vec());
    assert_eq!(started.events.len(), 0);

    match s.send_command(b"say hello") {
        SendDecision::Forward { wire, echo } => {
            assert_eq!(echo.message, b"say hello".to_vec());
            assert!(!echo.is_error);
            assert_eq!(wire, b"say hello\n".to_vec());
        }
        _ => panic!("a running process must accept the command"),
    }
}

#[test]
fn start_without_identifier_reports_sentinel() {
    let mut s = AppState::new();
    let started = s.record_spawn_success(None);
    assert_eq!(started.outcome.expect("start succeeded"), b"Server started (PID: no pid)".to_vec());
    assert!(s.server_pid.is_none());
    assert!(s.input_open);
}

#[test]
fn spawn_failure_clears_input_channel() {
    let mut s = AppState::new();
    s.record_spawn_success(Some(9));
    let report = s.record_spawn_failure(b"No such file or directory");
    match report.outcome {
        Err(SupervisorError::SpawnFailure { message }) => {
            assert_eq!(message, b"Error starting server: No such file or directory".to_vec());
        }
        _ => panic!("a spawn error must be reported as a spawn failure"),
    }
    assert_eq!(report.events.len(), 0);
    assert!(!s.input_open);
}

#[test]
fn empty_command_rejected_without_side_effects() {
    let mut s = AppState::new();
    s.record_spawn_success(Some(5));
    for cmd in [&b""[..], &b"   "[..], &b" \t\r\n "[..]] {
        match s.send_command(cmd) {
            SendDecision::Rejected { report } => {
                match report.outcome {
                    Err(SupervisorError::ValidationFailure { message }) => {
                        assert_eq!(message, b"Command cannot be empty.".to_vec());
                    }
                    _ => panic!("an empty command must be a validation failure"),
                }
                assert_eq!(report.events.len(), 0);
            }
            _ => panic!("an empty command must be rejected"),
        }
    }
}

#[test]
fn command_on_fresh_supervisor_conflicts() {
    let s = AppState::new();
    match s.send_command(b"anything") {
        SendDecision::NotRunning { report } => {
            match report.outcome {
                Err(SupervisorError::NotRunningConflict { message }) => {
                    assert_eq!(
                        message,
                        b"Server process is not running or stdin is closed.".to_vec()
                    );
                }
                _ => panic!("no process running must be a conflict"),
            }
            assert_eq!(report.events.len(), 1);
            assert!(report.events[0].is_error);
            assert_eq!(
                report.events[0].message,
                b"Server process is not running or stdin is closed.".to_vec()
            );
        }
        _ => panic!("a fresh supervisor has nothing to talk to"),
    }
}

#[test]
fn stop_failure_retains_identifier_for_retry() {
    let mut s = AppState::new();
    s.record_spawn_success(Some(7));

    let pid = match s.begin_stop() {
        StopDecision::KillRequired { identifier } => identifier,
        _ => panic!("a process was running"),
    };
    assert_eq!(pid, 7);
    assert!(s.server_pid.is_none());

    let report = s.finish_stop(pid, KillOutcome::Unsuccessful { stderr: b"kill: no such process".to_vec() });
    match report.outcome {
        Err(SupervisorError::TerminationFailure { message }) => {
            assert_eq!(
                message,
                b"Failed to stop server (PID: 7. Error: kill: no such process".to_vec()
            );
        }
        _ => panic!("a failed kill must be a termination failure"),
    }
    assert_eq!(report.events.len(), 1);
    assert!(report.events[0].is_error);
    assert_eq!(s.server_pid, Some(7));
    assert!(s.input_open, "the input channel is left untouched on a failed stop");

    let retry_pid = match s.begin_stop() {
        StopDecision::KillRequired { identifier } => identifier,
        _ => panic!("the identifier must still be retained"),
    };
    assert_eq!(retry_pid, 7);

    let report = s.finish_stop(retry_pid, KillOutcome::Succeeded);
    assert_eq!(
        report.outcome.expect("second stop succeeded"),
        b"Server stopped successfully. (PID: 7)".to_vec()
    );
    assert_eq!(report.events.len(), 1);
    assert!(!report.events[0].is_error);
    assert_eq!(report.events[0].message, b"Server stopped successfully. (PID: 7)".to_vec());
    assert!(s.server_pid.is_none());
    assert!(!s.input_open);
}

#[test]
fn kill_request_error_is_termination_failure() {
    let mut s = AppState::new();
    s.record_spawn_success(Some(3));
    match s.begin_stop() {
        StopDecision::KillRequired { identifier } => {
            let report =
                s.finish_stop(identifier, KillOutcome::RequestFailed { error: b"spawn failed".to_vec() });
            match report.outcome {
                Err(SupervisorError::TerminationFailure { message }) => {
                    assert_eq!(message, b"Failed to execute kill command: spawn failed".to_vec());
                }
                _ => panic!("an unissuable kill must be a termination failure"),
            }
            assert_eq!(report.events.len(), 1);
            assert!(report.events[0].is_error);
            assert_eq!(s.server_pid, Some(3));
        }
        _ => panic!("a process was running"),
    }
}

#[test]
fn finish_send_reports_each_outcome() {
    let ok = finish_send(b"say hello", WriteOutcome::Completed);
    assert_eq!(ok.outcome.expect("send succeeded"), b"Command 'say hello' sent.".to_vec());
    assert_eq!(ok.events.len(), 0);

    let w = finish_send(b"say hello", WriteOutcome::WriteFailed { error: b"broken pipe".to_vec() });
    match w.outcome {
        Err(SupervisorError::IOFailure { message }) => {
            assert_eq!(message, b"Failed to write to stdin: broken pipe".to_vec());
        }
        _ => panic!("a failed write must be an I/O failure"),
    }

    let f = finish_send(b"say hello", WriteOutcome::FlushFailed { error: b"broken pipe".to_vec() });
    match f.outcome {
        Err(SupervisorError::IOFailure { message }) => {
            assert_eq!(message, b"Failed to flush stdin: broken pipe".to_vec());
        }
        _ => panic!("a failed flush must be an I/O failure"),
    }
}

#[test]
fn payload_command_is_trimmed_and_forwarded() {
    let mut s = AppState::new();
    s.record_spawn_success(Some(11));
    let payload = CommandPayload { command: String::from("  list players \n") };
    match s.send_command_payload(&payload) {
        SendDecision::Forward { wire, echo } => {
            assert_eq!(echo.message, b"list players".to_vec());
            assert!(!echo.is_error);
            assert_eq!(wire, b"list players\n".to_vec());
        }
        _ => panic!("a running process must accept the command"),
    }
}

#[test]
fn second_start_overwrites_the_record() {
    // The design deliberately places no precondition on start: a second
    // spawn replaces the stored identifier and leaves the channel open.
    let mut s = AppState::new();
    s.record_spawn_success(Some(7));
    let report = s.record_spawn_success(Some(8));
    assert_eq!(report.outcome.expect("start succeeded"), b"Server started (PID: 8)".to_vec());
    assert_eq!(s.server_pid, Some(8));
    assert!(s.input_open);
}

#[test]
fn error_message_accessor_returns_carried_text() {
    let e = SupervisorError::IOFailure { message: b"broken pipe".to_vec() };
    assert_eq!(e.message(), &b"broken pipe".to_vec());
}
