use ralphtown::session::{OutputStream, SessionEvent, SessionStatus};

#[test]
fn status_names_round_trip() {
    for status in [
        SessionStatus::Idle,
        SessionStatus::Running,
        SessionStatus::Completed,
        SessionStatus::Error,
        SessionStatus::Cancelled,
    ] {
        assert_eq!(SessionStatus::from_str(status.as_str()), Ok(status));
    }
    assert_eq!(SessionStatus::Cancelled.as_str(), "cancelled");
    assert_eq!(
        SessionStatus::from_str("paused"),
        Err("Invalid session status: paused".to_string())
    );
}

#[test]
fn stream_names_round_trip() {
    assert_eq!(OutputStream::from_str("stdout"), Ok(OutputStream::Stdout));
    assert_eq!(OutputStream::from_str("stderr"), Ok(OutputStream::Stderr));
    assert_eq!(OutputStream::Stdout.as_str(), "stdout");
    assert_eq!(OutputStream::Stderr.as_str(), "stderr");
    assert_eq!(
        OutputStream::from_str("STDOUT"),
        Err("Invalid output stream: STDOUT".to_string())
    );
}

#[test]
fn running_session_reaches_one_terminal_status() {
    let running = SessionStatus::Running;
    assert_eq!(running.on_event(SessionEvent::ExitSuccess), Some(SessionStatus::Completed));
    assert_eq!(running.on_event(SessionEvent::ExitFailure), Some(SessionStatus::Error));
    assert_eq!(running.on_event(SessionEvent::Cancel), Some(SessionStatus::Cancelled));
    assert_eq!(running.on_event(SessionEvent::Run), None);
}

#[test]
fn cancel_and_exit_are_rejected_outside_running() {
    for status in [
        SessionStatus::Idle,
        SessionStatus::Completed,
        SessionStatus::Error,
        SessionStatus::Cancelled,
    ] {
        assert_eq!(status.on_event(SessionEvent::Cancel), None);
        assert_eq!(status.on_event(SessionEvent::ExitSuccess), None);
        assert_eq!(status.on_event(SessionEvent::ExitFailure), None);
        assert_eq!(status.on_event(SessionEvent::Run), Some(SessionStatus::Running));
        assert_eq!(status.is_terminal(), status != SessionStatus::Idle);
    }
}
