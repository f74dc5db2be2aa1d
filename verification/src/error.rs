//! The error taxonomy of the service and its mapping to HTTP status codes.
use vstd::prelude::*;
use vstd::string::*;
use crate::text::str_eq;

verus! {

pub const STATUS_OK: u16 = 200;

pub const STATUS_CREATED: u16 = 201;

pub const STATUS_NO_CONTENT: u16 = 204;

pub const STATUS_BAD_REQUEST: u16 = 400;

pub const STATUS_UNAUTHORIZED: u16 = 401;

pub const STATUS_NOT_FOUND: u16 = 404;

pub const STATUS_CONFLICT: u16 = 409;

pub const STATUS_INTERNAL_SERVER_ERROR: u16 = 500;

/// What the service reads from a failed database statement.
#[derive(Debug)]
pub enum DbError {
    /// A statement that must return a row returned none.
    RowNotFound,
    /// The database rejected the statement; `code` is its SQLSTATE, if it gave one.
    Database { code: Option<String>, message: String },
    /// Any other failure: connection, protocol, decoding.
    Other,
}

/// Mathematical value of a [`DbError`].
pub enum DbErrorView {
    RowNotFound,
    Database { code: Option<Seq<char>>, message: Seq<char> },
    Other,
}

impl View for DbError {
    type V = DbErrorView;

    open spec fn view(&self) -> DbErrorView {
        match self {
            DbError::RowNotFound => DbErrorView::RowNotFound,
            DbError::Database { code, message } => DbErrorView::Database {
                code: match code {
                    Some(c) => Some(c@),
                    None => None,
                },
                message: message@,
            },
            DbError::Other => DbErrorView::Other,
        }
    }
}

/// Failures of the mail client, with the text of the underlying failure.
#[derive(Debug)]
pub enum EmailClientError {
    IncompleteConfig(String),
    InvalidConfig(String),
    InvalidRecipient(String),
    Build(String),
    Transport(String),
}

/// Every failure a request can end in.
#[derive(Debug)]
pub enum AppError {
    NotFound { message: String },
    Validation(String),
    Unauthorized(String),
    Email(String),
    Internal(String),
    Sqlx(DbError),
    Serde(String),
}

/// Mathematical value of an [`AppError`].
pub enum AppErrorView {
    NotFound(Seq<char>),
    Validation(Seq<char>),
    Unauthorized(Seq<char>),
    Email(Seq<char>),
    Internal(Seq<char>),
    Sqlx(DbErrorView),
    Serde(Seq<char>),
}

impl View for AppError {
    type V = AppErrorView;

    open spec fn view(&self) -> AppErrorView {
        match self {
            AppError::NotFound { message } => AppErrorView::NotFound(message@),
            AppError::Validation(m) => AppErrorView::Validation(m@),
            AppError::Unauthorized(m) => AppErrorView::Unauthorized(m@),
            AppError::Email(m) => AppErrorView::Email(m@),
            AppError::Internal(m) => AppErrorView::Internal(m@),
            AppError::Sqlx(e) => AppErrorView::Sqlx(e@),
            AppError::Serde(m) => AppErrorView::Serde(m@),
        }
    }
}

/// The mathematical value of a result that fails with an [`AppError`].
pub open spec fn result_view<T: View>(r: Result<T, AppError>) -> Result<T::V, AppErrorView> {
    match r {
        Ok(v) => Ok(v@),
        Err(e) => Err(e@),
    }
}

/// SQLSTATE of a unique-constraint violation.
pub open spec fn sqlstate_unique_violation() -> Seq<char> {
    "23505"@
}

/// SQLSTATE of a foreign-key violation.
pub open spec fn sqlstate_foreign_key_violation() -> Seq<char> {
    "23503"@
}

/// SQLSTATE of an exception raised by a stored procedure.
pub open spec fn sqlstate_raise_exception() -> Seq<char> {
    "P0001"@
}

/// The status a database failure is answered with: a missing row is 404, a
/// unique or foreign-key violation 409, a raised exception 400, and all
/// else 500.
pub open spec fn db_error_status(e: DbErrorView) -> u16 {
    match e {
        DbErrorView::RowNotFound => STATUS_NOT_FOUND,
        DbErrorView::Database { code, message } => match code {
            Some(c) => if c == sqlstate_unique_violation() || c == sqlstate_foreign_key_violation() {
                STATUS_CONFLICT
            } else if c == sqlstate_raise_exception() {
                STATUS_BAD_REQUEST
            } else {
                STATUS_INTERNAL_SERVER_ERROR
            },
            None => STATUS_INTERNAL_SERVER_ERROR,
        },
        DbErrorView::Other => STATUS_INTERNAL_SERVER_ERROR,
    }
}

/// The status each failure is answered with.
pub open spec fn error_status(e: AppErrorView) -> u16 {
    match e {
        AppErrorView::NotFound(_) => STATUS_NOT_FOUND,
        AppErrorView::Validation(_) => STATUS_BAD_REQUEST,
        AppErrorView::Unauthorized(_) => STATUS_UNAUTHORIZED,
        AppErrorView::Email(_) => STATUS_INTERNAL_SERVER_ERROR,
        AppErrorView::Internal(_) => STATUS_INTERNAL_SERVER_ERROR,
        AppErrorView::Sqlx(d) => db_error_status(d),
        AppErrorView::Serde(_) => STATUS_INTERNAL_SERVER_ERROR,
    }
}

/// The message a failure shows to the client.
pub open spec fn error_message(e: AppErrorView) -> Seq<char> {
    match e {
        AppErrorView::NotFound(m) => m,
        AppErrorView::Validation(m) => m,
        AppErrorView::Unauthorized(m) => m,
        AppErrorView::Email(m) => m,
        AppErrorView::Internal(m) => m,
        AppErrorView::Sqlx(d) => match d {
            DbErrorView::RowNotFound => "resource not found"@,
            DbErrorView::Database { code, message } => message,
            DbErrorView::Other => "database error"@,
        },
        AppErrorView::Serde(_) => "unexpected error"@,
    }
}

/// Status for a failed database statement.
pub fn map_sqlx_error_to_status(error: &DbError) -> (status: u16)
    ensures
        status == db_error_status(error@),
{
    match error {
        DbError::RowNotFound => STATUS_NOT_FOUND,
        DbError::Database { code, message } => match code {
            Some(c) => {
                if str_eq(c.as_str(), "23505") || str_eq(c.as_str(), "23503") {
                    STATUS_CONFLICT
                } else if str_eq(c.as_str(), "P0001") {
                    STATUS_BAD_REQUEST
                } else {
                    STATUS_INTERNAL_SERVER_ERROR
                }
            },
            None => STATUS_INTERNAL_SERVER_ERROR,
        },
        DbError::Other => STATUS_INTERNAL_SERVER_ERROR,
    }
}

impl AppError {
    pub fn not_found(msg: &str) -> (e: AppError)
        ensures
            e@ == AppErrorView::NotFound(msg@),
    {
        AppError::NotFound { message: msg.to_string() }
    }

    pub fn validation(msg: &str) -> (e: AppError)
        ensures
            e@ == AppErrorView::Validation(msg@),
    {
        AppError::Validation(msg.to_string())
    }

    pub fn unauthorized(msg: &str) -> (e: AppError)
        ensures
            e@ == AppErrorView::Unauthorized(msg@),
    {
        AppError::Unauthorized(msg.to_string())
    }

    pub fn internal(msg: &str) -> (e: AppError)
        ensures
            e@ == AppErrorView::Internal(msg@),
    {
        AppError::Internal(msg.to_string())
    }

    /// The HTTP status this failure is answered with.
    pub fn status_code(&self) -> (status: u16)
        ensures
            status == error_status(self@),
    {
        match self {
            AppError::NotFound { .. } => STATUS_NOT_FOUND,
            AppError::Validation(_) => STATUS_BAD_REQUEST,
            AppError::Unauthorized(_) => STATUS_UNAUTHORIZED,
            AppError::Email(_) => STATUS_INTERNAL_SERVER_ERROR,
            AppError::Internal(_) => STATUS_INTERNAL_SERVER_ERROR,
            AppError::Sqlx(error) => map_sqlx_error_to_status(error),
            AppError::Serde(_) => STATUS_INTERNAL_SERVER_ERROR,
        }
    }

    /// The message shown to the client in the error body.
    pub fn message(&self) -> (text: String)
        ensures
            text@ == error_message(self@),
    {
        match self {
            AppError::NotFound { message } => message.clone(),
            AppError::Validation(message) => message.clone(),
            AppError::Unauthorized(message) => message.clone(),
            AppError::Email(message) => message.clone(),
            AppError::Internal(message) => message.clone(),
            AppError::Sqlx(error) => match error {
                DbError::RowNotFound => "resource not found".to_string(),
                DbError::Database { code, message } => message.clone(),
                DbError::Other => "database error".to_string(),
            },
            AppError::Serde(_) => "unexpected error".to_string(),
        }
    }
}

impl From<EmailClientError> for AppError {
    fn from(value: EmailClientError) -> (e: AppError) {
        match value {
            EmailClientError::InvalidRecipient(message) => AppError::Validation(message),
            EmailClientError::IncompleteConfig(message) => AppError::Email(message),
            EmailClientError::InvalidConfig(message) => AppError::Email(message),
            EmailClientError::Build(message) => AppError::Email(message),
            EmailClientError::Transport(message) => AppError::Email(message),
        }
    }
}

impl vstd::std_specs::convert::FromSpecImpl<EmailClientError> for AppError {
    open spec fn obeys_from_spec() -> bool {
        true
    }

    open spec fn from_spec(value: EmailClientError) -> AppError {
        match value {
            EmailClientError::InvalidRecipient(message) => AppError::Validation(message),
            EmailClientError::IncompleteConfig(message) => AppError::Email(message),
            EmailClientError::InvalidConfig(message) => AppError::Email(message),
            EmailClientError::Build(message) => AppError::Email(message),
            EmailClientError::Transport(message) => AppError::Email(message),
        }
    }
}

impl From<DbError> for AppError {
    fn from(value: DbError) -> (e: AppError) {
        AppError::Sqlx(value)
    }
}

impl vstd::std_specs::convert::FromSpecImpl<DbError> for AppError {
    open spec fn obeys_from_spec() -> bool {
        true
    }

    open spec fn from_spec(value: DbError) -> AppError {
        AppError::Sqlx(value)
    }
}

} // verus!
