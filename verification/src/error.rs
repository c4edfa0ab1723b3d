use vstd::prelude::*;
use crate::response::{AppletResponse, STATUS_BAD_REQUEST, STATUS_UNAUTHORIZED, STATUS_FORBIDDEN, STATUS_NOT_FOUND, STATUS_CONFLICT, STATUS_INTERNAL};
use crate::text::owned;

verus! {

/// An error a guard or handler returns; each kind maps to one status.
#[derive(Debug)]
pub enum AppletError {
    /// The request is malformed: 400.
    BadRequest { code: String, message: String },
    /// Authentication is missing or invalid: 401.
    Unauthorized { code: String, message: String },
    /// Authenticated but not permitted: 403.
    Forbidden { code: String, message: String },
    /// The resource does not exist: 404.
    NotFound { code: String, message: String },
    /// A state conflict: 409.
    Conflict { code: String, message: String },
    /// Something broke on the server: 500.
    Internal { code: String, message: String },
}

impl AppletError {
    /// The status each kind of error is answered with.
    pub open spec fn status(self) -> u16 {
        match self {
            AppletError::BadRequest { .. } => STATUS_BAD_REQUEST,
            AppletError::Unauthorized { .. } => STATUS_UNAUTHORIZED,
            AppletError::Forbidden { .. } => STATUS_FORBIDDEN,
            AppletError::NotFound { .. } => STATUS_NOT_FOUND,
            AppletError::Conflict { .. } => STATUS_CONFLICT,
            AppletError::Internal { .. } => STATUS_INTERNAL,
        }
    }

    /// The error's code.
    pub open spec fn code_view(self) -> Seq<char> {
        match self {
            AppletError::BadRequest { code, .. } => code@,
            AppletError::Unauthorized { code, .. } => code@,
            AppletError::Forbidden { code, .. } => code@,
            AppletError::NotFound { code, .. } => code@,
            AppletError::Conflict { code, .. } => code@,
            AppletError::Internal { code, .. } => code@,
        }
    }

    /// The error's message.
    pub open spec fn message_view(self) -> Seq<char> {
        match self {
            AppletError::BadRequest { message, .. } => message@,
            AppletError::Unauthorized { message, .. } => message@,
            AppletError::Forbidden { message, .. } => message@,
            AppletError::NotFound { message, .. } => message@,
            AppletError::Conflict { message, .. } => message@,
            AppletError::Internal { message, .. } => message@,
        }
    }

    pub fn not_found(code: &str, message: &str) -> (r: Self)
        ensures
            r is NotFound,
            r.code_view() == code@,
            r.message_view() == message@,
    {
        AppletError::NotFound { code: owned(code), message: owned(message) }
    }

    pub fn forbidden(code: &str, message: &str) -> (r: Self)
        ensures
            r is Forbidden,
            r.code_view() == code@,
            r.message_view() == message@,
    {
        AppletError::Forbidden { code: owned(code), message: owned(message) }
    }

    pub fn unauthorized(code: &str, message: &str) -> (r: Self)
        ensures
            r is Unauthorized,
            r.code_view() == code@,
            r.message_view() == message@,
    {
        AppletError::Unauthorized { code: owned(code), message: owned(message) }
    }

    pub fn bad_request(code: &str, message: &str) -> (r: Self)
        ensures
            r is BadRequest,
            r.code_view() == code@,
            r.message_view() == message@,
    {
        AppletError::BadRequest { code: owned(code), message: owned(message) }
    }

    pub fn internal(code: &str, message: &str) -> (r: Self)
        ensures
            r is Internal,
            r.code_view() == code@,
            r.message_view() == message@,
    {
        AppletError::Internal { code: owned(code), message: owned(message) }
    }

    /// The response the framework sends for this error: its status, no body,
    /// and the error's code and message.
    pub fn into_response<T>(self) -> (r: AppletResponse<T>)
        ensures
            r.is_error(self.status(), self.code_view(), self.message_view()),
    {
        match self {
            AppletError::BadRequest { code, message } => AppletResponse::bad_request(code.as_str(), message.as_str()),
            AppletError::Unauthorized { code, message } => AppletResponse::unauthorized(code.as_str(), message.as_str()),
            AppletError::Forbidden { code, message } => AppletResponse::forbidden(code.as_str(), message.as_str()),
            AppletError::NotFound { code, message } => AppletResponse::not_found(code.as_str(), message.as_str()),
            AppletError::Conflict { code, message } => AppletResponse::conflict(code.as_str(), message.as_str()),
            AppletError::Internal { code, message } => AppletResponse::internal(code.as_str(), message.as_str()),
        }
    }
}

} // verus!
