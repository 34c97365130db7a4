//! The records that the persistent store keeps.

use vstd::prelude::*;
use crate::ids::{RepoId, SessionId};
use crate::session::{OutputStream, SessionStatus};
use crate::text::{concat, same_text};

verus! {

/// A point in time: seconds since 1970-01-01T00:00:00Z and the
/// nanoseconds within the second.
#[derive(Clone, Copy, Debug, PartialEq, Eq, Structural)]
pub struct Timestamp {
    pub seconds: i64,
    pub nanos: u32,
}

/// A git repository known to the store.
#[derive(Clone, Debug, PartialEq, Eq)]
pub struct Repo {
    pub id: RepoId,
    pub path: String,
    pub name: String,
    pub created_at: Timestamp,
    pub updated_at: Timestamp,
}

/// A `Repo` with its texts as sequences.
pub struct RepoView {
    pub id: RepoId,
    pub path: Seq<char>,
    pub name: Seq<char>,
    pub created_at: Timestamp,
    pub updated_at: Timestamp,
}

impl View for Repo {
    type V = RepoView;

    open spec fn view(&self) -> RepoView {
        RepoView {
            id: self.id,
            path: self.path@,
            name: self.name@,
            created_at: self.created_at,
            updated_at: self.updated_at,
        }
    }
}

impl DeepView for Repo {
    type V = RepoView;

    open spec fn deep_view(&self) -> RepoView {
        self@
    }
}

/// The program that drives a session.
#[derive(Clone, Copy, Debug, PartialEq, Eq, Structural)]
pub enum Orchestrator {
    Ralph,
}

impl Orchestrator {
    /// The name under which the orchestrator is stored.
    pub fn as_str(&self) -> (s: &'static str)
        ensures
            s@ == "ralph"@,
    {
        "ralph"
    }

    /// Reads a stored name back; any other text is reported with the text
    /// in the message.
    pub fn from_str(s: &str) -> (r: Result<Orchestrator, String>)
        ensures
            s@ == "ralph"@ ==> r == Ok::<Orchestrator, String>(Orchestrator::Ralph),
            s@ != "ralph"@ ==> r is Err && r->Err_0@ == "Invalid orchestrator: "@ + s@,
    {
        if same_text(s, "ralph") {
            Ok(Orchestrator::Ralph)
        } else {
            Err(concat("Invalid orchestrator: ", s))
        }
    }
}

/// A unit of work: one repository, one logical run of the agent.
#[derive(Clone, Debug, PartialEq, Eq)]
pub struct Session {
    pub id: SessionId,
    pub repo_id: RepoId,
    pub name: Option<String>,
    pub orchestrator: Orchestrator,
    pub status: SessionStatus,
    pub created_at: Timestamp,
    pub updated_at: Timestamp,
}

/// Who wrote a message.
#[derive(Clone, Copy, Debug, PartialEq, Eq, Structural)]
pub enum MessageRole {
    User,
    Assistant,
}

/// The stored name of a role.
pub open spec fn role_text(role: MessageRole) -> Seq<char> {
    match role {
        MessageRole::User => "user"@,
        MessageRole::Assistant => "assistant"@,
    }
}

/// The role that a stored name stands for.
pub open spec fn role_of_text(text: Seq<char>) -> Option<MessageRole> {
    if text == "user"@ {
        Some(MessageRole::User)
    } else if text == "assistant"@ {
        Some(MessageRole::Assistant)
    } else {
        None
    }
}

impl MessageRole {
    /// The name under which the role is stored.
    pub fn as_str(&self) -> (s: &'static str)
        ensures
            s@ == role_text(*self),
    {
        match self {
            MessageRole::User => "user",
            MessageRole::Assistant => "assistant",
        }
    }

    /// Reads a stored name back; any other text is reported with the text
    /// in the message.
    pub fn from_str(s: &str) -> (r: Result<MessageRole, String>)
        ensures
            match role_of_text(s@) {
                Some(role) => r == Ok::<MessageRole, String>(role),
                None => r is Err && r->Err_0@ == "Invalid message role: "@ + s@,
            },
    {
        if same_text(s, "user") {
            Ok(MessageRole::User)
        } else if same_text(s, "assistant") {
            Ok(MessageRole::Assistant)
        } else {
            Err(concat("Invalid message role: ", s))
        }
    }
}

/// A prompt or a response within a session.
#[derive(Clone, Debug, PartialEq, Eq)]
pub struct Message {
    pub id: u128,
    pub session_id: SessionId,
    pub role: MessageRole,
    pub content: String,
    pub created_at: Timestamp,
}

/// One stored line of a process's output.
#[derive(Clone, Debug, PartialEq, Eq)]
pub struct OutputLog {
    /// Grows with every line stored.
    pub id: i64,
    pub session_id: SessionId,
    pub stream: OutputStream,
    pub content: String,
    pub created_at: Timestamp,
}

} // verus!
