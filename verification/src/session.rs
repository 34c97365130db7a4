//! Session status, output streams and the per-session state machine.

use vstd::prelude::*;
use crate::text::{concat, same_text};

verus! {

/// Lifecycle status of a session.
#[derive(Clone, Copy, Debug, PartialEq, Eq, Structural)]
pub enum SessionStatus {
    Idle,
    Running,
    Completed,
    Error,
    Cancelled,
}

/// What can happen to a session.
#[derive(Clone, Copy, Debug, PartialEq, Eq, Structural)]
pub enum SessionEvent {
    /// A run was requested.
    Run,
    /// The process exited with status zero.
    ExitSuccess,
    /// The process exited with a non-zero status, or abnormally.
    ExitFailure,
    /// A cancellation was requested.
    Cancel,
}

/// The status that follows `status` on `event`, or `None` where the event
/// is rejected and the status stays as it is.
pub open spec fn next_status(status: SessionStatus, event: SessionEvent) -> Option<SessionStatus> {
    match (status, event) {
        (SessionStatus::Running, SessionEvent::Run) => None,
        (_, SessionEvent::Run) => Some(SessionStatus::Running),
        (SessionStatus::Running, SessionEvent::ExitSuccess) => Some(SessionStatus::Completed),
        (SessionStatus::Running, SessionEvent::ExitFailure) => Some(SessionStatus::Error),
        (SessionStatus::Running, SessionEvent::Cancel) => Some(SessionStatus::Cancelled),
        _ => None,
    }
}

/// The stored name of a status.
pub open spec fn status_text(status: SessionStatus) -> Seq<char> {
    match status {
        SessionStatus::Idle => "idle"@,
        SessionStatus::Running => "running"@,
        SessionStatus::Completed => "completed"@,
        SessionStatus::Error => "error"@,
        SessionStatus::Cancelled => "cancelled"@,
    }
}

/// The status that a stored name stands for.
pub open spec fn status_of_text(text: Seq<char>) -> Option<SessionStatus> {
    if text == "idle"@ {
        Some(SessionStatus::Idle)
    } else if text == "running"@ {
        Some(SessionStatus::Running)
    } else if text == "completed"@ {
        Some(SessionStatus::Completed)
    } else if text == "error"@ {
        Some(SessionStatus::Error)
    } else if text == "cancelled"@ {
        Some(SessionStatus::Cancelled)
    } else {
        None
    }
}

impl SessionStatus {
    /// A status out of which only a new run leads.
    pub open spec fn terminal(self) -> bool {
        self == SessionStatus::Completed || self == SessionStatus::Error || self
            == SessionStatus::Cancelled
    }

    pub fn is_terminal(&self) -> (b: bool)
        ensures
            b == self.terminal(),
    {
        match self {
            SessionStatus::Completed | SessionStatus::Error | SessionStatus::Cancelled => true,
            _ => false,
        }
    }

    /// The name under which the status is stored and sent.
    pub fn as_str(&self) -> (s: &'static str)
        ensures
            s@ == status_text(*self),
    {
        match self {
            SessionStatus::Idle => "idle",
            SessionStatus::Running => "running",
            SessionStatus::Completed => "completed",
            SessionStatus::Error => "error",
            SessionStatus::Cancelled => "cancelled",
        }
    }

    /// Reads a stored name back; any other text is reported with the text
    /// in the message.
    pub fn from_str(s: &str) -> (r: Result<SessionStatus, String>)
        ensures
            match status_of_text(s@) {
                Some(status) => r == Ok::<SessionStatus, String>(status),
                None => r is Err && r->Err_0@ == "Invalid session status: "@ + s@,
            },
    {
        if same_text(s, "idle") {
            Ok(SessionStatus::Idle)
        } else if same_text(s, "running") {
            Ok(SessionStatus::Running)
        } else if same_text(s, "completed") {
            Ok(SessionStatus::Completed)
        } else if same_text(s, "error") {
            Ok(SessionStatus::Error)
        } else if same_text(s, "cancelled") {
            Ok(SessionStatus::Cancelled)
        } else {
            Err(concat("Invalid session status: ", s))
        }
    }

    /// Applies `event`: the new status, or `None` where the event is
    /// rejected.
    pub fn on_event(self, event: SessionEvent) -> (r: Option<SessionStatus>)
        ensures
            r == next_status(self, event),
    {
        match (self, event) {
            (SessionStatus::Running, SessionEvent::Run) => None,
            (_, SessionEvent::Run) => Some(SessionStatus::Running),
            (SessionStatus::Running, SessionEvent::ExitSuccess) => Some(SessionStatus::Completed),
            (SessionStatus::Running, SessionEvent::ExitFailure) => Some(SessionStatus::Error),
            (SessionStatus::Running, SessionEvent::Cancel) => Some(SessionStatus::Cancelled),
            _ => None,
        }
    }
}

/// Every stored name reads back as the status it was written for.
pub proof fn lemma_status_text_round_trip(status: SessionStatus)
    ensures
        status_of_text(status_text(status)) == Some(status),
{
    reveal_strlit("idle");
    reveal_strlit("running");
    reveal_strlit("completed");
    reveal_strlit("error");
    reveal_strlit("cancelled");
    assert("idle"@.len() == 4);
    assert("running"@.len() == 7);
    assert("completed"@.len() == 9);
    assert("error"@.len() == 5);
    assert("cancelled"@[1] == 'a');
    assert("completed"@[1] == 'o');
}

/// A running session leaves `Running` on every event but a second run,
/// and what it reaches is terminal: `Completed` exactly on a successful
/// exit, `Error` on a failed one, `Cancelled` on a cancellation.
pub proof fn lemma_running_ends_terminal(event: SessionEvent)
    requires
        event != SessionEvent::Run,
    ensures
        next_status(SessionStatus::Running, event) is Some,
        next_status(SessionStatus::Running, event)->Some_0.terminal(),
        next_status(SessionStatus::Running, event) == Some(SessionStatus::Completed) <==> event
            == SessionEvent::ExitSuccess,
        next_status(SessionStatus::Running, event) == Some(SessionStatus::Error) <==> event
            == SessionEvent::ExitFailure,
        next_status(SessionStatus::Running, event) == Some(SessionStatus::Cancelled) <==> event
            == SessionEvent::Cancel,
{
}

/// Outside `Running` nothing but a run request changes the status: a
/// cancellation or an exit report is rejected, and a run leads to
/// `Running`.
pub proof fn lemma_only_run_leaves_rest(status: SessionStatus, event: SessionEvent)
    requires
        status != SessionStatus::Running,
    ensures
        event != SessionEvent::Run ==> next_status(status, event) is None,
        event == SessionEvent::Run ==> next_status(status, event) == Some(SessionStatus::Running),
{
}

/// One of the two output streams of a process.
#[derive(Clone, Copy, Debug, PartialEq, Eq, Structural)]
pub enum OutputStream {
    Stdout,
    Stderr,
}

/// The tag under which a stream's lines are stored.
pub open spec fn stream_text(stream: OutputStream) -> Seq<char> {
    match stream {
        OutputStream::Stdout => "stdout"@,
        OutputStream::Stderr => "stderr"@,
    }
}

/// The stream that a stored tag stands for.
pub open spec fn stream_of_text(text: Seq<char>) -> Option<OutputStream> {
    if text == "stdout"@ {
        Some(OutputStream::Stdout)
    } else if text == "stderr"@ {
        Some(OutputStream::Stderr)
    } else {
        None
    }
}

impl OutputStream {
    /// The tag under which the stream's lines are stored and sent.
    pub fn as_str(&self) -> (s: &'static str)
        ensures
            s@ == stream_text(*self),
    {
        match self {
            OutputStream::Stdout => "stdout",
            OutputStream::Stderr => "stderr",
        }
    }

    /// Reads a stored tag back; any other text is reported with the text
    /// in the message.
    pub fn from_str(s: &str) -> (r: Result<OutputStream, String>)
        ensures
            match stream_of_text(s@) {
                Some(stream) => r == Ok::<OutputStream, String>(stream),
                None => r is Err && r->Err_0@ == "Invalid output stream: "@ + s@,
            },
    {
        if same_text(s, "stdout") {
            Ok(OutputStream::Stdout)
        } else if same_text(s, "stderr") {
            Ok(OutputStream::Stderr)
        } else {
            Err(concat("Invalid output stream: ", s))
        }
    }
}

/// Every stored tag reads back as the stream it was written for.
pub proof fn lemma_stream_text_round_trip(stream: OutputStream)
    ensures
        stream_of_text(stream_text(stream)) == Some(stream),
{
    reveal_strlit("stdout");
    reveal_strlit("stderr");
    assert("stdout"@[3] == 'o');
    assert("stderr"@[3] == 'e');
}

} // verus!
