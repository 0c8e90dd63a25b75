use overtls_manager::session::{
    join_step, stop_report, JoinStep, Session, StartError, StopError, JOIN_POLL_MS,
    STOP_TIMEOUT_MS,
};
use overtls_manager::util::{host_os_name, ThreadJoinError};

#[test]
fn second_start_is_refused_and_keeps_first_session() {
    let mut s: Session<&str, u32> = Session::new();
    assert!(!s.is_running());
    assert_eq!(s.start("first", 1), Ok(()));
    assert_eq!(s.start("second", 2), Err(StartError::AlreadyRunning));
    assert_eq!(s.token, Some("first"));
    assert_eq!(s.handle, Some(1));
    assert_eq!(s.take(), Some(("first", 1)));
    assert!(!s.is_running());
}

#[test]
fn stop_without_session_reports_no_session() {
    let mut s: Session<u8, u8> = Session::new();
    assert_eq!(s.take(), None);
    assert!(s.token.is_none() && s.handle.is_none());
    assert_eq!(stop_report(false, true), Err(StopError::NoSession));
    assert_eq!(StopError::NoSession.message(), "No running node.");
}

#[test]
fn stop_past_timeout_reports_timeout() {
    assert_eq!(join_step(false, STOP_TIMEOUT_MS + 1, STOP_TIMEOUT_MS), JoinStep::GiveUp);
    assert_eq!(join_step(false, STOP_TIMEOUT_MS, STOP_TIMEOUT_MS), JoinStep::Wait);
    assert_eq!(join_step(true, u64::MAX, STOP_TIMEOUT_MS), JoinStep::Join);
    assert_eq!(stop_report(true, false), Err(StopError::Timeout));
    assert_eq!(stop_report(true, true), Ok(()));
    assert_eq!(JOIN_POLL_MS, 50);
}

#[test]
fn join_messages() {
    assert_eq!(ThreadJoinError::Timeout.message(), "Thread join timed out");
    assert_eq!(ThreadJoinError::Panic(Some("boom".to_string())).message(), "Thread panicked: boom");
    assert_eq!(ThreadJoinError::Panic(None).message(), "Thread panicked with unknown type");
}

#[test]
fn os_names() {
    assert_eq!(host_os_name("windows"), "Windows");
    assert_eq!(host_os_name("macos"), "macOS");
    assert_eq!(host_os_name("linux"), "Linux");
    assert_eq!(host_os_name("freebsd"), "Unknown OS");
}
