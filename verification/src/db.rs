//! The persistent store's errors, and how its rows are read.

use vstd::prelude::*;
use crate::models::Timestamp;
use crate::text::{concat, decimal, int_text};

verus! {

/// Why an operation of the store failed.
#[derive(Clone, Debug, PartialEq, Eq)]
pub enum DbError {
    /// The database engine failed, with its message.
    Sqlite(String),
    NoDataDir,
    /// The file system failed, with its message.
    Io(String),
    NotFound,
    InvalidData(String),
    ParseError { message: String, value: String, field: String },
    ConstraintViolation(String),
    ConnectionError(String),
}

/// A `DbError` with its texts as sequences.
pub enum DbErrorView {
    Sqlite(Seq<char>),
    NoDataDir,
    Io(Seq<char>),
    NotFound,
    InvalidData(Seq<char>),
    ParseError { message: Seq<char>, value: Seq<char>, field: Seq<char> },
    ConstraintViolation(Seq<char>),
    ConnectionError(Seq<char>),
}

impl View for DbError {
    type V = DbErrorView;

    open spec fn view(&self) -> DbErrorView {
        match *self {
            DbError::Sqlite(m) => DbErrorView::Sqlite(m@),
            DbError::NoDataDir => DbErrorView::NoDataDir,
            DbError::Io(m) => DbErrorView::Io(m@),
            DbError::NotFound => DbErrorView::NotFound,
            DbError::InvalidData(m) => DbErrorView::InvalidData(m@),
            DbError::ParseError { message, value, field } => DbErrorView::ParseError {
                message: message@,
                value: value@,
                field: field@,
            },
            DbError::ConstraintViolation(m) => DbErrorView::ConstraintViolation(m@),
            DbError::ConnectionError(m) => DbErrorView::ConnectionError(m@),
        }
    }
}

/// The message of a store error.
pub open spec fn db_error_text(e: DbErrorView) -> Seq<char> {
    match e {
        DbErrorView::Sqlite(m) => "SQLite error: "@ + m,
        DbErrorView::NoDataDir => "Failed to determine data directory"@,
        DbErrorView::Io(m) => "IO error: "@ + m,
        DbErrorView::NotFound => "Record not found"@,
        DbErrorView::InvalidData(m) => "Invalid data: "@ + m,
        DbErrorView::ParseError { message, value, field } => "Parse error: "@ + message,
        DbErrorView::ConstraintViolation(m) => "Constraint violation: "@ + m,
        DbErrorView::ConnectionError(m) => "Connection error: "@ + m,
    }
}

impl DbError {
    /// The message of the error.
    pub fn to_string(&self) -> (s: String)
        ensures
            s@ == db_error_text(self@),
    {
        match self {
            DbError::Sqlite(m) => concat("SQLite error: ", m.as_str()),
            DbError::NoDataDir => String::from_str("Failed to determine data directory"),
            DbError::Io(m) => concat("IO error: ", m.as_str()),
            DbError::NotFound => String::from_str("Record not found"),
            DbError::InvalidData(m) => concat("Invalid data: ", m.as_str()),
            DbError::ParseError { message, value, field } => concat(
                "Parse error: ",
                message.as_str(),
            ),
            DbError::ConstraintViolation(m) => concat("Constraint violation: ", m.as_str()),
            DbError::ConnectionError(m) => concat("Connection error: ", m.as_str()),
        }
    }
}

/// What `uuid::Uuid::parse_str` makes of a text: the 128-bit value of
/// the identifier, or the message of its error.
pub uninterp spec fn parsed_uuid(text: Seq<char>) -> Result<u128, Seq<char>>;

/// `uuid::Uuid::parse_str`, with `uuid::Uuid::as_u128` on the identifier
/// and the `Display` of `uuid::Error` on the error. The contract claims
/// only that the result is what the parser gives, under the name
/// `parsed_uuid`.
#[verifier::external_body]
pub(crate) fn parse_uuid_text(value: &str) -> (r: Result<u128, String>)
    ensures
        match r {
            Ok(id) => parsed_uuid(value@) == Ok::<u128, Seq<char>>(id),
            Err(message) => parsed_uuid(value@) == Err::<u128, Seq<char>>(message@),
        },
{
    match uuid::Uuid::parse_str(value) {
        Ok(id) => Ok(id.as_u128()),
        Err(e) => Err(e.to_string()),
    }
}

/// What `chrono::DateTime::parse_from_rfc3339` makes of a text: the
/// seconds since 1970-01-01T00:00:00Z with the nanoseconds within the
/// second, or the message of its error.
pub uninterp spec fn parsed_rfc3339(text: Seq<char>) -> Result<(i64, u32), Seq<char>>;

/// `chrono::DateTime::parse_from_rfc3339`, with `DateTime::timestamp` and
/// `DateTime::timestamp_subsec_nanos` on the time and the `Display` of
/// `chrono::ParseError` on the error. The contract claims only that the
/// result is what the parser gives, under the name `parsed_rfc3339`.
#[verifier::external_body]
pub(crate) fn parse_rfc3339_text(value: &str) -> (r: Result<Timestamp, String>)
    ensures
        match r {
            Ok(t) => parsed_rfc3339(value@) == Ok::<(i64, u32), Seq<char>>((t.seconds, t.nanos)),
            Err(message) => parsed_rfc3339(value@) == Err::<(i64, u32), Seq<char>>(message@),
        },
{
    match chrono::DateTime::parse_from_rfc3339(value) {
        Ok(time) => Ok(Timestamp { seconds: time.timestamp(), nanos: time.timestamp_subsec_nanos() }),
        Err(e) => Err(e.to_string()),
    }
}

/// The error for a stored value that could not be read.
pub open spec fn parse_failure(message: Seq<char>, value: Seq<char>, field: Seq<char>) -> DbErrorView {
    DbErrorView::ParseError { message, value, field }
}

/// What reading a stored identifier gives, once the text is parsed.
pub open spec fn uuid_field_of(parsed: Result<u128, Seq<char>>, value: Seq<char>, field: Seq<char>) -> Result<
    u128,
    DbErrorView,
> {
    match parsed {
        Ok(id) => Ok(id),
        Err(message) => Err(parse_failure(message, value, field)),
    }
}

/// What reading a stored time gives, once the text is parsed.
pub open spec fn time_field_of(
    parsed: Result<(i64, u32), Seq<char>>,
    value: Seq<char>,
    field: Seq<char>,
) -> Result<Timestamp, DbErrorView> {
    match parsed {
        Ok(t) => Ok(Timestamp { seconds: t.0, nanos: t.1 }),
        Err(message) => Err(parse_failure(message, value, field)),
    }
}

/// The value of a parsed field, or the error that names the field, the
/// stored text and the parser's message.
pub fn parsed_field<T>(parsed: Result<T, String>, value: &str, field: &str) -> (r: Result<T, DbError>)
    ensures
        match parsed {
            Ok(v) => r == Ok::<T, DbError>(v),
            Err(message) => r is Err && r->Err_0@ == parse_failure(message@, value@, field@),
        },
{
    match parsed {
        Ok(v) => Ok(v),
        Err(message) => Err(
            DbError::ParseError {
                message,
                value: String::from_str(value),
                field: String::from_str(field),
            },
        ),
    }
}

/// Reads a stored identifier. A text that is none is reported with the
/// field's name, the text and the parser's message.
pub fn parse_uuid(value: &str, field: &str) -> (r: Result<u128, DbError>)
    ensures
        match uuid_field_of(parsed_uuid(value@), value@, field@) {
            Ok(id) => r == Ok::<u128, DbError>(id),
            Err(e) => r is Err && r->Err_0@ == e,
        },
{
    parsed_field(parse_uuid_text(value), value, field)
}

/// Reads a stored time. A text that is none is reported with the field's
/// name, the text and the parser's message.
pub fn parse_datetime(value: &str, field: &str) -> (r: Result<Timestamp, DbError>)
    ensures
        match time_field_of(parsed_rfc3339(value@), value@, field@) {
            Ok(t) => r == Ok::<Timestamp, DbError>(t),
            Err(e) => r is Err && r->Err_0@ == e,
        },
{
    parsed_field(parse_rfc3339_text(value), value, field)
}

/// Reads a stored name with `parser`. A text that `parser` refuses is
/// reported with the field's name, the text and the parser's message.
pub fn parse_enum<T, F: FnOnce(&str) -> Result<T, String>>(value: &str, field: &str, parser: F) -> (r:
    Result<T, DbError>)
    requires
        parser.requires((value,)),
    ensures
        exists|parsed: Result<T, String>| #[trigger]
            parser.ensures((value,), parsed) && match parsed {
                Ok(v) => r == Ok::<T, DbError>(v),
                Err(message) => r is Err && r->Err_0@ == parse_failure(message@, value@, field@),
            },
{
    let parsed = parser(value);
    let ghost got = parsed;
    let r = parsed_field(parsed, value, field);
    assert(parser.ensures((value,), got));
    r
}

/// The columns and the table of the output log, for one session.
pub open spec fn output_logs_select() -> Seq<char> {
    "SELECT id, session_id, stream, content, created_at FROM output_logs WHERE session_id = ?1"@
}

/// The end of the query: the limit and the offset. An offset without a
/// limit takes the limit -1, which stands for none.
pub open spec fn paging_clause(limit: Option<i64>, offset: Option<i64>) -> Seq<char> {
    match (limit, offset) {
        (Some(l), Some(o)) => " LIMIT "@ + int_text(l as int) + " OFFSET "@ + int_text(o as int),
        (Some(l), None) => " LIMIT "@ + int_text(l as int),
        (None, Some(o)) => " LIMIT -1 OFFSET "@ + int_text(o as int),
        (None, None) => Seq::empty(),
    }
}

/// The query that lists the output of a session in the order in which it
/// was stored, for one stream where `by_stream` is set.
pub open spec fn output_logs_query_of(by_stream: bool, limit: Option<i64>, offset: Option<i64>) -> Seq<
    char,
> {
    output_logs_select() + (if by_stream {
        " AND stream = ?2"@
    } else {
        Seq::empty()
    }) + " ORDER BY id"@ + paging_clause(limit, offset)
}

/// The query that lists the output of a session.
pub fn list_output_logs(by_stream: bool, limit: Option<i64>, offset: Option<i64>) -> (query: String)
    ensures
        query@ == output_logs_query_of(by_stream, limit, offset),
{
    let mut query = String::from_str(
        "SELECT id, session_id, stream, content, created_at FROM output_logs WHERE session_id = ?1",
    );
    let ghost select = query@;
    if by_stream {
        query.append(" AND stream = ?2");
    } else {
        assert(select + Seq::<char>::empty() =~= select);
    }
    query.append(" ORDER BY id");
    let ghost ordered = query@;
    match (limit, offset) {
        (Some(l), Some(o)) => {
            let lt = decimal(l);
            let ot = decimal(o);
            query.append(" LIMIT ");
            query.append(lt.as_str());
            query.append(" OFFSET ");
            query.append(ot.as_str());
            assert(query@ =~= ordered + paging_clause(limit, offset));
        },
        (Some(l), None) => {
            let lt = decimal(l);
            query.append(" LIMIT ");
            query.append(lt.as_str());
            assert(query@ =~= ordered + paging_clause(limit, offset));
        },
        (None, Some(o)) => {
            let ot = decimal(o);
            query.append(" LIMIT -1 OFFSET ");
            query.append(ot.as_str());
            assert(query@ =~= ordered + paging_clause(limit, offset));
        },
        (None, None) => {
            assert(query@ =~= ordered + paging_clause(limit, offset));
        },
    }
    query
}

} // verus!
