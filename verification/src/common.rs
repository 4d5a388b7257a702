//! Errors of the API, the HTTP status that each one is answered with, and
//! the success value of actions that return no data.

use vstd::prelude::*;

verus! {

pub const STATUS_OK: u16 = 200;
pub const STATUS_BAD_REQUEST: u16 = 400;
pub const STATUS_UNAUTHORIZED: u16 = 401;
pub const STATUS_NOT_FOUND: u16 = 404;
pub const STATUS_INTERNAL_SERVER_ERROR: u16 = 500;

/// An error answered to the client; its JSON body is `{"error": {"type": ..}}`
/// with the variant's name as `type`.
#[derive(Clone, Debug, PartialEq, Eq)]
pub enum AppError {
    BadRequest { message: String },
    Internal,
    NotFound,
    DuplicateUsername,
    UserNotFound,
    SRPNotStarted,
    InvalidCredential,
    Forbidden,
}

/// The HTTP status that answers an error: 404 for `NotFound`, 500 for
/// `Internal`, 401 for `InvalidCredential`, 400 for every other error.
pub open spec fn status_of(error: AppError) -> u16 {
    match error {
        AppError::NotFound => STATUS_NOT_FOUND,
        AppError::Internal => STATUS_INTERNAL_SERVER_ERROR,
        AppError::InvalidCredential => STATUS_UNAUTHORIZED,
        _ => STATUS_BAD_REQUEST,
    }
}

impl AppError {
    /// The HTTP status of the error response.
    pub fn status_code(&self) -> (status: u16)
        ensures
            status == status_of(*self),
    {
        match self {
            AppError::NotFound => STATUS_NOT_FOUND,
            AppError::Internal => STATUS_INTERNAL_SERVER_ERROR,
            AppError::InvalidCredential => STATUS_UNAUTHORIZED,
            _ => STATUS_BAD_REQUEST,
        }
    }

    /// The text the error displays as: it is empty, the body carries the
    /// error instead.
    pub fn to_display_string(&self) -> (text: String)
        ensures
            text@ == Seq::<char>::empty(),
    {
        String::new()
    }
}

/// The error that replaces a bare error page of the given status: 404 and
/// 500 pages become `NotFound` and `Internal`; every other status is left
/// as it is.
pub open spec fn error_for_status_spec(status: u16) -> Option<AppError> {
    if status == STATUS_NOT_FOUND {
        Some(AppError::NotFound)
    } else if status == STATUS_INTERNAL_SERVER_ERROR {
        Some(AppError::Internal)
    } else {
        None
    }
}

/// Decides how a response with the given status is rewritten: `Some(e)` means
/// its body is replaced by the body of `e`, `None` that it passes unchanged.
/// A replacement keeps the status of the response.
pub fn global_error_handler(status: u16) -> (replacement: Option<AppError>)
    ensures
        replacement == error_for_status_spec(status),
        replacement matches Some(e) ==> status_of(e) == status,
{
    if status == STATUS_NOT_FOUND {
        Some(AppError::NotFound)
    } else if status == STATUS_INTERNAL_SERVER_ERROR {
        Some(AppError::Internal)
    } else {
        None
    }
}

/// The outcome of a request: a value sent as JSON with status 200, or an error.
pub struct AppResult<T>(pub Result<T, AppError>);

/// The status that answers an outcome.
pub open spec fn response_status_spec<T>(result: Result<T, AppError>) -> u16 {
    match result {
        Ok(_) => STATUS_OK,
        Err(e) => status_of(e),
    }
}

impl<T> AppResult<T> {
    pub fn ok(value: T) -> (r: Self)
        ensures
            r.0 == Ok::<T, AppError>(value),
    {
        AppResult(Ok(value))
    }

    pub fn err(error: AppError) -> (r: Self)
        ensures
            r.0 == Err::<T, AppError>(error),
    {
        AppResult(Err(error))
    }

    /// The HTTP status of the response that answers this outcome.
    pub fn response_status(&self) -> (status: u16)
        ensures
            status == response_status_spec(self.0),
    {
        match &self.0 {
            Ok(_) => STATUS_OK,
            Err(e) => e.status_code(),
        }
    }
}

/// The body of an action that returns no data.
#[derive(Debug, PartialEq, Eq)]
pub struct ActionResult {
    pub success: bool,
}

impl ActionResult {
    pub fn success() -> (r: ActionResult)
        ensures
            r.success,
    {
        ActionResult { success: true }
    }
}

} // verus!
