use tinysh::shell::pty::{PtyAction, PtyEvent, PtyExec, PtyPhase};
use tinysh::shell::ShellError;

fn session(cmd: &str, argv: &[&str]) -> (PtyExec, PtyAction) {
    PtyExec::new(cmd.to_string(), argv.iter().map(|a| a.to_string()).collect())
}

#[test]
fn successful_session_streams_bytes_verbatim() {
    let (mut m, first) = session("cat", &["notes.txt"]);
    assert_eq!(first, PtyAction::EnterRawMode);
    assert_eq!(m.step(PtyEvent::RawEntered), PtyAction::OpenPty);
    assert_eq!(m.step(PtyEvent::PtyOpened), PtyAction::SpawnChild);
    assert_eq!(m.cmd_name, "cat");
    assert_eq!(m.args, vec!["notes.txt".to_string()]);
    assert_eq!(m.step(PtyEvent::ChildSpawned), PtyAction::CloseSubordinate);
    assert_eq!(m.step(PtyEvent::SubordinateReleased), PtyAction::ReadChunk);
    // the child writes two chunks, then the stream ends
    assert_eq!(
        m.step(PtyEvent::BytesRead(b"hello ".to_vec())),
        PtyAction::WriteChunk(b"hello ".to_vec())
    );
    assert_eq!(m.step(PtyEvent::ChunkWritten), PtyAction::ReadChunk);
    assert_eq!(
        m.step(PtyEvent::BytesRead(b"world".to_vec())),
        PtyAction::WriteChunk(b"world".to_vec())
    );
    assert_eq!(m.step(PtyEvent::ChunkWritten), PtyAction::ReadChunk);
    assert_eq!(m.step(PtyEvent::BytesRead(Vec::new())), PtyAction::WaitChild);
    assert_eq!(m.step(PtyEvent::ChildExited), PtyAction::RestoreTermMode);
    assert_eq!(m.step(PtyEvent::ModeRestored), PtyAction::Finish);
    assert_eq!(m.phase, PtyPhase::Done);
    assert_eq!(m.outcome(), Ok(()));
}

#[test]
fn spawn_failure_still_restores_mode() {
    let (mut m, _) = session("nosuchprogram", &[]);
    m.step(PtyEvent::RawEntered);
    m.step(PtyEvent::PtyOpened);
    // spawning fails: the next action must be mode restoration, not finish
    assert_eq!(m.step(PtyEvent::SpawnFailed), PtyAction::RestoreTermMode);
    assert_eq!(m.step(PtyEvent::ModeRestored), PtyAction::Finish);
    assert_eq!(m.phase, PtyPhase::Done);
    assert_eq!(m.outcome(), Err(ShellError::SpawnError));
}

#[test]
fn pty_allocation_failure_still_restores_mode() {
    let (mut m, _) = session("ls", &[]);
    m.step(PtyEvent::RawEntered);
    assert_eq!(m.step(PtyEvent::PtyOpenFailed), PtyAction::RestoreTermMode);
    assert_eq!(m.step(PtyEvent::ModeRestored), PtyAction::Finish);
    assert_eq!(m.outcome(), Err(ShellError::PtyAllocationError));
}

#[test]
fn raw_mode_failure_needs_no_restore() {
    let (mut m, _) = session("ls", &[]);
    assert_eq!(m.step(PtyEvent::RawFailed), PtyAction::Finish);
    assert_eq!(m.phase, PtyPhase::Done);
    assert!(!m.raw_entered);
    assert_eq!(m.outcome(), Err(ShellError::TerminalModeError));
}

#[test]
fn read_error_is_surfaced_after_restoring() {
    let (mut m, _) = session("flaky", &[]);
    m.step(PtyEvent::RawEntered);
    m.step(PtyEvent::PtyOpened);
    m.step(PtyEvent::ChildSpawned);
    m.step(PtyEvent::SubordinateReleased);
    // a failed read ends the stream, but the fault is not swallowed
    assert_eq!(m.step(PtyEvent::ReadFailed), PtyAction::WaitChild);
    assert_eq!(m.step(PtyEvent::ChildExited), PtyAction::RestoreTermMode);
    assert_eq!(m.step(PtyEvent::ModeRestored), PtyAction::Finish);
    assert_eq!(m.outcome(), Err(ShellError::OutputStreamError));
}

#[test]
fn read_error_survives_later_failures() {
    let (mut m, _) = session("flaky", &[]);
    m.step(PtyEvent::RawEntered);
    m.step(PtyEvent::PtyOpened);
    m.step(PtyEvent::ChildSpawned);
    m.step(PtyEvent::SubordinateReleased);
    m.step(PtyEvent::BytesRead(b"partial".to_vec()));
    m.step(PtyEvent::ChunkWritten);
    m.step(PtyEvent::ReadFailed);
    m.step(PtyEvent::WaitFailed);
    m.step(PtyEvent::RestoreFailed);
    // the first fault wins over the wait and restoration failures
    assert_eq!(m.outcome(), Err(ShellError::OutputStreamError));
}

#[test]
fn restore_failure_is_reported() {
    let (mut m, _) = session("true", &[]);
    m.step(PtyEvent::RawEntered);
    m.step(PtyEvent::PtyOpened);
    m.step(PtyEvent::ChildSpawned);
    m.step(PtyEvent::SubordinateReleased);
    m.step(PtyEvent::BytesRead(Vec::new()));
    m.step(PtyEvent::ChildExited);
    assert_eq!(m.step(PtyEvent::RestoreFailed), PtyAction::Finish);
    assert_eq!(m.outcome(), Err(ShellError::TerminalModeError));
}

#[test]
fn restore_failure_masks_no_earlier_fault() {
    let (mut m, _) = session("nosuchprogram", &[]);
    m.step(PtyEvent::RawEntered);
    m.step(PtyEvent::PtyOpened);
    m.step(PtyEvent::SpawnFailed);
    m.step(PtyEvent::RestoreFailed);
    // the earlier, more specific fault wins
    assert_eq!(m.outcome(), Err(ShellError::SpawnError));
}

#[test]
fn wait_failure_is_surfaced_and_still_restores_mode() {
    let (mut m, _) = session("ls", &[]);
    m.step(PtyEvent::RawEntered);
    m.step(PtyEvent::PtyOpened);
    m.step(PtyEvent::ChildSpawned);
    m.step(PtyEvent::SubordinateReleased);
    m.step(PtyEvent::BytesRead(Vec::new()));
    assert_eq!(m.step(PtyEvent::WaitFailed), PtyAction::RestoreTermMode);
    assert_eq!(m.step(PtyEvent::ModeRestored), PtyAction::Finish);
    assert_eq!(m.outcome(), Err(ShellError::ChildWaitError));
}
