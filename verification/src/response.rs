use vstd::prelude::*;
use crate::text::owned;

verus! {

/// 200 OK.
pub const STATUS_OK: u16 = 200;
/// 201 Created.
pub const STATUS_CREATED: u16 = 201;
/// 204 No Content.
pub const STATUS_NO_CONTENT: u16 = 204;
/// 400 Bad Request.
pub const STATUS_BAD_REQUEST: u16 = 400;
/// 401 Unauthorized.
pub const STATUS_UNAUTHORIZED: u16 = 401;
/// 403 Forbidden.
pub const STATUS_FORBIDDEN: u16 = 403;
/// 404 Not Found.
pub const STATUS_NOT_FOUND: u16 = 404;
/// 409 Conflict.
pub const STATUS_CONFLICT: u16 = 409;
/// 500 Internal Server Error.
pub const STATUS_INTERNAL: u16 = 500;

/// A status in the 2xx range.
pub open spec fn is_success(status: u16) -> bool {
    200 <= status <= 299
}

/// The one value every handler returns: a status, and either a body or an
/// error code and message.
#[derive(Debug)]
pub struct AppletResponse<T> {
    /// The HTTP status code, e.g. 200 or 404.
    pub status: u16,
    /// The payload; `None` for errors and for 204.
    pub body: Option<T>,
    /// A machine-readable error code, only on errors.
    pub error_code: Option<String>,
    /// A human-readable error message, only on errors.
    pub error_message: Option<String>,
}

/// `o` holds a string whose characters are `s`.
pub open spec fn holds_text(o: Option<String>, s: Seq<char>) -> bool {
    o matches Some(v) && v@ == s
}

impl<T> AppletResponse<T> {
    /// An error response: status `status`, no body, the given code and message.
    pub open spec fn is_error(self, status: u16, code: Seq<char>, message: Seq<char>) -> bool {
        &&& self.status == status
        &&& self.body.is_none()
        &&& holds_text(self.error_code, code)
        &&& holds_text(self.error_message, message)
    }

    /// A success response: status `status`, the body `data`, no error fields.
    pub open spec fn is_success_with(self, status: u16, data: T) -> bool {
        &&& self.status == status
        &&& self.body == Some(data)
        &&& self.error_code.is_none()
        &&& self.error_message.is_none()
    }

    /// 200 OK with a body.
    pub fn ok(data: T) -> (r: Self)
        ensures
            r.is_success_with(STATUS_OK, data),
    {
        AppletResponse { status: STATUS_OK, body: Some(data), error_code: None, error_message: None }
    }

    /// 201 Created with a body.
    pub fn created(data: T) -> (r: Self)
        ensures
            r.is_success_with(STATUS_CREATED, data),
    {
        AppletResponse { status: STATUS_CREATED, body: Some(data), error_code: None, error_message: None }
    }

    /// 400 Bad Request.
    pub fn bad_request(code: &str, message: &str) -> (r: Self)
        ensures
            r.is_error(STATUS_BAD_REQUEST, code@, message@),
    {
        Self::error(STATUS_BAD_REQUEST, code, message)
    }

    /// 401 Unauthorized.
    pub fn unauthorized(code: &str, message: &str) -> (r: Self)
        ensures
            r.is_error(STATUS_UNAUTHORIZED, code@, message@),
    {
        Self::error(STATUS_UNAUTHORIZED, code, message)
    }

    /// 403 Forbidden.
    pub fn forbidden(code: &str, message: &str) -> (r: Self)
        ensures
            r.is_error(STATUS_FORBIDDEN, code@, message@),
    {
        Self::error(STATUS_FORBIDDEN, code, message)
    }

    /// 404 Not Found.
    pub fn not_found(code: &str, message: &str) -> (r: Self)
        ensures
            r.is_error(STATUS_NOT_FOUND, code@, message@),
    {
        Self::error(STATUS_NOT_FOUND, code, message)
    }

    /// 409 Conflict.
    pub fn conflict(code: &str, message: &str) -> (r: Self)
        ensures
            r.is_error(STATUS_CONFLICT, code@, message@),
    {
        Self::error(STATUS_CONFLICT, code, message)
    }

    /// 500 Internal Server Error.
    pub fn internal(code: &str, message: &str) -> (r: Self)
        ensures
            r.is_error(STATUS_INTERNAL, code@, message@),
    {
        Self::error(STATUS_INTERNAL, code, message)
    }

    fn error(status: u16, code: &str, message: &str) -> (r: Self)
        ensures
            r.is_error(status, code@, message@),
    {
        AppletResponse {
            status,
            body: None,
            error_code: Some(owned(code)),
            error_message: Some(owned(message)),
        }
    }
}

impl AppletResponse<()> {
    /// 204 No Content: success with nothing to return.
    pub fn no_content() -> (r: Self)
        ensures
            r.status == STATUS_NO_CONTENT,
            r.body.is_none(),
            r.error_code.is_none(),
            r.error_message.is_none(),
    {
        AppletResponse { status: STATUS_NO_CONTENT, body: None, error_code: None, error_message: None }
    }
}

} // verus!
