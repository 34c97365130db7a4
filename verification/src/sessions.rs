//! Sessions as the service presents them: the requests it takes, the
//! answers it gives, and the errors of its lookups.

use vstd::prelude::*;
use crate::db::{db_error_text, DbError, DbErrorView};
use crate::error::{AppError, AppErrorView};
use crate::ids::{format_uuid, uuid_text, RepoId, SessionId};
use crate::models::{Message, OutputLog, Session};
use crate::ralph::{ralph_error_text, RalphError, RalphErrorView};
use crate::session::{stream_of_text, OutputStream, SessionStatus};
use crate::text::{concat, concat3, same_text};

verus! {

/// A request to create a session.
#[derive(Clone, Debug, PartialEq, Eq)]
pub struct CreateSessionRequest {
    /// The repository that the session works in.
    pub repo_id: RepoId,
    /// A name for the session.
    pub name: Option<String>,
}

/// A session with its messages.
#[derive(Clone, Debug, PartialEq, Eq)]
pub struct SessionDetails {
    pub session: Session,
    pub messages: Vec<Message>,
}

/// A request to run the agent for a session.
#[derive(Clone, Debug, PartialEq, Eq)]
pub struct RunSessionRequest {
    /// What the agent is asked to do.
    pub prompt: String,
}

/// The answer to a run that started.
#[derive(Clone, Debug, PartialEq, Eq)]
pub struct RunSessionResponse {
    pub session_id: SessionId,
    pub status: SessionStatus,
    pub message: String,
}

/// The answer to a cancellation that was carried out.
#[derive(Clone, Debug, PartialEq, Eq)]
pub struct CancelSessionResponse {
    pub session_id: SessionId,
    pub status: SessionStatus,
    pub message: String,
}

/// The query of the endpoint that lists a session's output.
#[derive(Clone, Debug, PartialEq, Eq)]
pub struct OutputQueryParams {
    /// Only this stream: `stdout` or `stderr`, in any case.
    pub stream: Option<String>,
    /// At most this many lines.
    pub limit: Option<i64>,
    /// Without this many lines at the start.
    pub offset: Option<i64>,
}

/// The stored output of a session.
#[derive(Clone, Debug, PartialEq, Eq)]
pub struct OutputResponse {
    pub session_id: SessionId,
    pub logs: Vec<OutputLog>,
    pub total: usize,
}

/// What the lookup of a record was for.
#[derive(Clone, Copy, Debug, PartialEq, Eq, Structural)]
pub enum Lookup {
    /// A session that the request names.
    Session,
    /// A repository that the request names for deletion.
    Repository,
    /// The repository that a new session is to work in.
    RepositoryOfNewSession,
    /// The repository of the session that is to run.
    RepositoryOfSession,
}

/// The error for a record that a lookup did not find.
pub open spec fn missing_of(lookup: Lookup, id: u128) -> AppErrorView {
    match lookup {
        Lookup::Session => AppErrorView::NotFound("Session not found: "@ + uuid_text(id)),
        Lookup::Repository => AppErrorView::NotFound("Repository not found: "@ + uuid_text(id)),
        Lookup::RepositoryOfNewSession => AppErrorView::BadRequest(
            "Repository not found: "@ + uuid_text(id),
        ),
        Lookup::RepositoryOfSession => AppErrorView::Internal(
            "Repository not found for session: "@ + uuid_text(id),
        ),
    }
}

/// The error that a failed lookup is answered with: the one for a missing
/// record where the store found none, an internal error with the store's
/// message otherwise.
pub open spec fn lookup_error_of(lookup: Lookup, id: u128, e: DbErrorView) -> AppErrorView {
    match e {
        DbErrorView::NotFound => missing_of(lookup, id),
        other => AppErrorView::Internal(db_error_text(other)),
    }
}

/// The error that a failed lookup of the record `id` is answered with.
pub fn lookup_error(lookup: Lookup, id: u128, e: &DbError) -> (r: AppError)
    ensures
        r@ == lookup_error_of(lookup, id, e@),
{
    match e {
        DbError::NotFound => {
            let id_text = format_uuid(id);
            match lookup {
                Lookup::Session => AppError::NotFound(
                    concat("Session not found: ", id_text.as_str()),
                ),
                Lookup::Repository => AppError::NotFound(
                    concat("Repository not found: ", id_text.as_str()),
                ),
                Lookup::RepositoryOfNewSession => AppError::BadRequest(
                    concat("Repository not found: ", id_text.as_str()),
                ),
                Lookup::RepositoryOfSession => AppError::Internal(
                    concat("Repository not found for session: ", id_text.as_str()),
                ),
            }
        },
        other => AppError::Internal(other.to_string()),
    }
}

/// The error that a refused cancellation is answered with: a bad request
/// where the session has no process, an internal error with the
/// refusal's message otherwise.
pub open spec fn cancel_error_of(e: RalphErrorView) -> AppErrorView {
    match e {
        RalphErrorView::NotRunning(id) => AppErrorView::BadRequest(
            "Session "@ + uuid_text(id) + " has no running process"@,
        ),
        other => AppErrorView::Internal(ralph_error_text(other)),
    }
}

/// The error that a refused cancellation is answered with.
pub fn cancel_session(e: &RalphError) -> (r: AppError)
    ensures
        r@ == cancel_error_of(e@),
{
    match e {
        RalphError::NotRunning(id) => {
            let id_text = format_uuid(*id);
            AppError::BadRequest(concat3("Session ", id_text.as_str(), " has no running process"))
        },
        other => AppError::Internal(other.to_string()),
    }
}

impl RunSessionResponse {
    /// The answer to a run of `session_id` that started.
    pub fn started(session_id: SessionId) -> (r: RunSessionResponse)
        ensures
            r.session_id == session_id,
            r.status == SessionStatus::Running,
            r.message@ == "Ralph process started"@,
    {
        RunSessionResponse {
            session_id,
            status: SessionStatus::Running,
            message: String::from_str("Ralph process started"),
        }
    }
}

impl CancelSessionResponse {
    /// The answer to a cancellation of `session_id` that was carried
    /// out.
    pub fn cancelled(session_id: SessionId) -> (r: CancelSessionResponse)
        ensures
            r.session_id == session_id,
            r.status == SessionStatus::Cancelled,
            r.message@ == "Ralph process cancelled"@,
    {
        CancelSessionResponse {
            session_id,
            status: SessionStatus::Cancelled,
            message: String::from_str("Ralph process cancelled"),
        }
    }
}

impl OutputResponse {
    /// The answer that lists `logs` for the session.
    pub fn new(session_id: SessionId, logs: Vec<OutputLog>) -> (r: OutputResponse)
        ensures
            r.session_id == session_id,
            r.logs == logs,
            r.total == logs.len(),
    {
        let total: usize = logs.len();
        OutputResponse { session_id, logs, total }
    }
}

/// `s` in lower case, as `str::to_lowercase` gives it.
pub uninterp spec fn lowercase_of(s: Seq<char>) -> Seq<char>;

/// `str::to_lowercase`: the text with each character replaced by its
/// lower-case form. The contract claims only that the result is that
/// text, under the name `lowercase_of`.
#[verifier::external_body]
pub(crate) fn to_lowercase(s: &str) -> (r: String)
    ensures
        r@ == lowercase_of(s@),
{
    s.to_lowercase()
}

/// The stream that a lower-case name stands for.
pub fn stream_of_name(name: &str) -> (r: Option<OutputStream>)
    ensures
        r == stream_of_text(name@),
{
    if same_text(name, "stdout") {
        Some(OutputStream::Stdout)
    } else if same_text(name, "stderr") {
        Some(OutputStream::Stderr)
    } else {
        None
    }
}

impl OutputQueryParams {
    /// The stream that the query asks for: the one that its name stands
    /// for once the name is in lower case; none where no stream is named
    /// or the name stands for none.
    pub fn stream_filter(&self) -> (r: Option<OutputStream>)
        ensures
            r == match self.stream {
                Some(name) => stream_of_text(lowercase_of(name@)),
                None => None,
            },
    {
        match &self.stream {
            Some(name) => {
                let lower = to_lowercase(name.as_str());
                stream_of_name(lower.as_str())
            },
            None => None,
        }
    }
}

} // verus!
