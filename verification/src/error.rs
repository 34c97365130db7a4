//! The error that the service answers with, and how the errors of the
//! store, of a clone and of the orchestrator turn into it.

use vstd::prelude::*;
use vstd::std_specs::convert::FromSpecImpl;
use crate::db::{db_error_text, DbError, DbErrorView};
use crate::git::{CloneError, CloneErrorView};
use crate::ids::{format_uuid, uuid_text};
use crate::ralph::{RalphError, RalphErrorView};
use crate::text::{concat, concat3};

verus! {

/// What a rejected value was, and in which field.
#[derive(Clone, Debug, PartialEq, Eq)]
pub struct ErrorDetails {
    pub field: Option<String>,
    pub value: Option<String>,
}

/// An `ErrorDetails` with its texts as sequences.
pub struct ErrorDetailsView {
    pub field: Option<Seq<char>>,
    pub value: Option<Seq<char>>,
}

impl DeepView for ErrorDetails {
    type V = ErrorDetailsView;

    open spec fn deep_view(&self) -> ErrorDetailsView {
        ErrorDetailsView { field: self.field.deep_view(), value: self.value.deep_view() }
    }
}

/// An error of the service.
#[derive(Clone, Debug, PartialEq, Eq)]
pub enum AppError {
    /// Something failed inside the service.
    Internal(String),
    /// What was asked for does not exist.
    NotFound(String),
    /// The request cannot be served as it is.
    BadRequest(String),
    /// The request is at odds with what is stored.
    Conflict(String),
    /// A stored or a given value could not be read.
    UnprocessableEntity { message: String, field: Option<String>, value: Option<String> },
    /// The user can mend the cause by the steps given.
    UserActionRequired {
        code: String,
        message: String,
        details: Option<ErrorDetails>,
        help_steps: Vec<String>,
    },
}

/// An `AppError` with its texts as sequences.
pub enum AppErrorView {
    Internal(Seq<char>),
    NotFound(Seq<char>),
    BadRequest(Seq<char>),
    Conflict(Seq<char>),
    UnprocessableEntity { message: Seq<char>, field: Option<Seq<char>>, value: Option<Seq<char>> },
    UserActionRequired {
        code: Seq<char>,
        message: Seq<char>,
        details: Option<ErrorDetailsView>,
        help_steps: Seq<Seq<char>>,
    },
}

impl View for AppError {
    type V = AppErrorView;

    open spec fn view(&self) -> AppErrorView {
        match *self {
            AppError::Internal(m) => AppErrorView::Internal(m@),
            AppError::NotFound(m) => AppErrorView::NotFound(m@),
            AppError::BadRequest(m) => AppErrorView::BadRequest(m@),
            AppError::Conflict(m) => AppErrorView::Conflict(m@),
            AppError::UnprocessableEntity { message, field, value } => {
                AppErrorView::UnprocessableEntity {
                    message: message@,
                    field: field.deep_view(),
                    value: value.deep_view(),
                }
            },
            AppError::UserActionRequired { code, message, details, help_steps } => {
                AppErrorView::UserActionRequired {
                    code: code@,
                    message: message@,
                    details: details.deep_view(),
                    help_steps: help_steps.deep_view(),
                }
            },
        }
    }
}

/// The message of a service error.
pub open spec fn app_error_text(e: AppErrorView) -> Seq<char> {
    match e {
        AppErrorView::Internal(m) => "Internal error: "@ + m,
        AppErrorView::NotFound(m) => "Not found: "@ + m,
        AppErrorView::BadRequest(m) => "Bad request: "@ + m,
        AppErrorView::Conflict(m) => "Conflict: "@ + m,
        AppErrorView::UnprocessableEntity { message, field, value } => "Unprocessable entity: "@
            + message,
        AppErrorView::UserActionRequired { code, message, details, help_steps } =>
            "User action required ["@ + code + "]: "@ + message,
    }
}

/// The body of an error response.
#[derive(Clone, Debug, PartialEq, Eq)]
pub struct ErrorBody {
    pub code: String,
    pub message: String,
    pub details: Option<ErrorDetails>,
    pub help_steps: Vec<String>,
}

/// An error response: the HTTP status and the body.
#[derive(Clone, Debug, PartialEq, Eq)]
pub struct ErrorResponse {
    pub status: u16,
    pub error: ErrorBody,
}

/// An `ErrorResponse` with its texts as sequences.
pub struct ErrorResponseView {
    pub status: u16,
    pub code: Seq<char>,
    pub message: Seq<char>,
    pub details: Option<ErrorDetailsView>,
    pub help_steps: Seq<Seq<char>>,
}

impl View for ErrorResponse {
    type V = ErrorResponseView;

    open spec fn view(&self) -> ErrorResponseView {
        ErrorResponseView {
            status: self.status,
            code: self.error.code@,
            message: self.error.message@,
            details: self.error.details.deep_view(),
            help_steps: self.error.help_steps.deep_view(),
        }
    }
}

/// The response that an error is answered with: 500, 404, 400 and 409 for
/// the four plain kinds, 422 for a value that could not be read, with the
/// field and the value as details, and 422 with the error's own code,
/// details and steps where the user has to act.
pub open spec fn response_of(e: AppErrorView) -> ErrorResponseView {
    match e {
        AppErrorView::Internal(m) => ErrorResponseView {
            status: 500,
            code: "INTERNAL_ERROR"@,
            message: m,
            details: None,
            help_steps: Seq::empty(),
        },
        AppErrorView::NotFound(m) => ErrorResponseView {
            status: 404,
            code: "NOT_FOUND"@,
            message: m,
            details: None,
            help_steps: Seq::empty(),
        },
        AppErrorView::BadRequest(m) => ErrorResponseView {
            status: 400,
            code: "BAD_REQUEST"@,
            message: m,
            details: None,
            help_steps: Seq::empty(),
        },
        AppErrorView::Conflict(m) => ErrorResponseView {
            status: 409,
            code: "CONFLICT"@,
            message: m,
            details: None,
            help_steps: Seq::empty(),
        },
        AppErrorView::UnprocessableEntity { message, field, value } => ErrorResponseView {
            status: 422,
            code: "PARSE_ERROR"@,
            message,
            details: Some(ErrorDetailsView { field, value }),
            help_steps: Seq::empty(),
        },
        AppErrorView::UserActionRequired { code, message, details, help_steps } => {
            ErrorResponseView { status: 422, code, message, details, help_steps }
        },
    }
}

/// The service error for an error of the store.
pub open spec fn app_error_of_db(e: DbErrorView) -> AppErrorView {
    match e {
        DbErrorView::NotFound => AppErrorView::NotFound("Resource not found"@),
        DbErrorView::ParseError { message, value, field } => AppErrorView::UnprocessableEntity {
            message,
            field: Some(field),
            value: Some(value),
        },
        DbErrorView::ConstraintViolation(m) => AppErrorView::Conflict(m),
        other => AppErrorView::Internal(db_error_text(other)),
    }
}

/// The service error for a failed clone: the two authentication failures
/// ask the user to act, with their steps; the others are internal.
pub open spec fn app_error_of_clone(e: CloneErrorView) -> AppErrorView {
    match e {
        CloneErrorView::SshAuthFailed { message, help_steps } => AppErrorView::UserActionRequired {
            code: "SSH_AUTH_FAILED"@,
            message,
            details: None,
            help_steps,
        },
        CloneErrorView::HttpsAuthFailed { message, help_steps } => {
            AppErrorView::UserActionRequired {
                code: "HTTPS_AUTH_FAILED"@,
                message,
                details: None,
                help_steps,
            }
        },
        CloneErrorView::NetworkError { message } => AppErrorView::Internal(
            "Network error: "@ + message,
        ),
        CloneErrorView::OperationFailed { message } => AppErrorView::Internal(
            "Clone failed: "@ + message,
        ),
    }
}

/// The service error for a refusal of the orchestrator.
pub open spec fn app_error_of_ralph(e: RalphErrorView) -> AppErrorView {
    match e {
        RalphErrorView::RepoBusy(id) => AppErrorView::BadRequest(
            "Repository "@ + uuid_text(id) + " already has a running ralph process"@,
        ),
        RalphErrorView::SessionAlreadyRunning(id) => AppErrorView::BadRequest(
            "Session "@ + uuid_text(id) + " already has a running process"@,
        ),
        RalphErrorView::SpawnFailed(detail) => AppErrorView::Internal(
            "Failed to start ralph: "@ + detail,
        ),
        RalphErrorView::NotFound { message, help_steps } => AppErrorView::UserActionRequired {
            code: "RALPH_NOT_FOUND"@,
            message,
            details: None,
            help_steps,
        },
        RalphErrorView::NotRunning(id) => AppErrorView::BadRequest(
            "Session "@ + uuid_text(id) + " has no running process"@,
        ),
    }
}

/// An empty list of steps.
fn no_steps() -> (steps: Vec<String>)
    ensures
        steps.deep_view() == Seq::<Seq<char>>::empty(),
{
    let steps: Vec<String> = Vec::new();
    assert(steps.deep_view() =~= Seq::<Seq<char>>::empty());
    steps
}

impl AppError {
    /// The message of the error.
    pub fn to_string(&self) -> (s: String)
        ensures
            s@ == app_error_text(self@),
    {
        match self {
            AppError::Internal(m) => concat("Internal error: ", m.as_str()),
            AppError::NotFound(m) => concat("Not found: ", m.as_str()),
            AppError::BadRequest(m) => concat("Bad request: ", m.as_str()),
            AppError::Conflict(m) => concat("Conflict: ", m.as_str()),
            AppError::UnprocessableEntity { message, field, value } => concat(
                "Unprocessable entity: ",
                message.as_str(),
            ),
            AppError::UserActionRequired { code, message, details, help_steps } => {
                let mut s = concat3("User action required [", code.as_str(), "]: ");
                s.append(message.as_str());
                s
            },
        }
    }

    /// The response that the error is answered with.
    pub fn into_response(self) -> (r: ErrorResponse)
        ensures
            r@ == response_of(self@),
    {
        match self {
            AppError::Internal(m) => ErrorResponse {
                status: 500,
                error: ErrorBody {
                    code: String::from_str("INTERNAL_ERROR"),
                    message: m,
                    details: None,
                    help_steps: no_steps(),
                },
            },
            AppError::NotFound(m) => ErrorResponse {
                status: 404,
                error: ErrorBody {
                    code: String::from_str("NOT_FOUND"),
                    message: m,
                    details: None,
                    help_steps: no_steps(),
                },
            },
            AppError::BadRequest(m) => ErrorResponse {
                status: 400,
                error: ErrorBody {
                    code: String::from_str("BAD_REQUEST"),
                    message: m,
                    details: None,
                    help_steps: no_steps(),
                },
            },
            AppError::Conflict(m) => ErrorResponse {
                status: 409,
                error: ErrorBody {
                    code: String::from_str("CONFLICT"),
                    message: m,
                    details: None,
                    help_steps: no_steps(),
                },
            },
            AppError::UnprocessableEntity { message, field, value } => ErrorResponse {
                status: 422,
                error: ErrorBody {
                    code: String::from_str("PARSE_ERROR"),
                    message,
                    details: Some(ErrorDetails { field, value }),
                    help_steps: no_steps(),
                },
            },
            AppError::UserActionRequired { code, message, details, help_steps } => ErrorResponse {
                status: 422,
                error: ErrorBody { code, message, details, help_steps },
            },
        }
    }
}

impl From<DbError> for AppError {
    fn from(err: DbError) -> (e: AppError)
        ensures
            e@ == app_error_of_db(err@),
    {
        match err {
            DbError::NotFound => AppError::NotFound(String::from_str("Resource not found")),
            DbError::ParseError { message, value, field } => AppError::UnprocessableEntity {
                message,
                field: Some(field),
                value: Some(value),
            },
            DbError::ConstraintViolation(m) => AppError::Conflict(m),
            other => AppError::Internal(other.to_string()),
        }
    }
}

impl FromSpecImpl<DbError> for AppError {
    open spec fn obeys_from_spec() -> bool {
        false
    }

    open spec fn from_spec(err: DbError) -> AppError {
        AppError::Internal(err->Sqlite_0)
    }
}

impl From<CloneError> for AppError {
    fn from(err: CloneError) -> (e: AppError)
        ensures
            e@ == app_error_of_clone(err@),
    {
        match err {
            CloneError::SshAuthFailed { message, help_steps } => AppError::UserActionRequired {
                code: String::from_str("SSH_AUTH_FAILED"),
                message,
                details: None,
                help_steps,
            },
            CloneError::HttpsAuthFailed { message, help_steps } => AppError::UserActionRequired {
                code: String::from_str("HTTPS_AUTH_FAILED"),
                message,
                details: None,
                help_steps,
            },
            CloneError::NetworkError { message } => AppError::Internal(
                concat("Network error: ", message.as_str()),
            ),
            CloneError::OperationFailed { message } => AppError::Internal(
                concat("Clone failed: ", message.as_str()),
            ),
        }
    }
}

impl FromSpecImpl<CloneError> for AppError {
    open spec fn obeys_from_spec() -> bool {
        false
    }

    open spec fn from_spec(err: CloneError) -> AppError {
        AppError::Internal(err->NetworkError_message)
    }
}

impl From<RalphError> for AppError {
    fn from(err: RalphError) -> (e: AppError)
        ensures
            e@ == app_error_of_ralph(err@),
    {
        match err {
            RalphError::RepoBusy(repo_id) => {
                let id = format_uuid(repo_id);
                AppError::BadRequest(
                    concat3("Repository ", id.as_str(), " already has a running ralph process"),
                )
            },
            RalphError::SessionAlreadyRunning(session_id) => {
                let id = format_uuid(session_id);
                AppError::BadRequest(
                    concat3("Session ", id.as_str(), " already has a running process"),
                )
            },
            RalphError::SpawnFailed(detail) => AppError::Internal(
                concat("Failed to start ralph: ", detail.as_str()),
            ),
            RalphError::NotFound { message, help_steps } => AppError::UserActionRequired {
                code: String::from_str("RALPH_NOT_FOUND"),
                message,
                details: None,
                help_steps,
            },
            RalphError::NotRunning(session_id) => {
                let id = format_uuid(session_id);
                AppError::BadRequest(concat3("Session ", id.as_str(), " has no running process"))
            },
        }
    }
}

impl FromSpecImpl<RalphError> for AppError {
    open spec fn obeys_from_spec() -> bool {
        false
    }

    open spec fn from_spec(err: RalphError) -> AppError {
        AppError::Internal(err->SpawnFailed_0)
    }
}

} // verus!
