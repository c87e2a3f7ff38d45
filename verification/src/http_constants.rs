//! HTTP status code constants and the standardized error response body.

use vstd::prelude::*;

verus! {

/// 200 OK
pub const HTTP_OK: u16 = 200;

/// 201 Created
pub const HTTP_CREATED: u16 = 201;

/// 204 No Content
pub const HTTP_NO_CONTENT: u16 = 204;

/// 400 Bad Request
pub const HTTP_BAD_REQUEST: u16 = 400;

/// 401 Unauthorized
pub const HTTP_UNAUTHORIZED: u16 = 401;

/// 403 Forbidden
pub const HTTP_FORBIDDEN: u16 = 403;

/// 404 Not Found
pub const HTTP_NOT_FOUND: u16 = 404;

/// 413 Payload Too Large
pub const HTTP_PAYLOAD_TOO_LARGE: u16 = 413;

/// 422 Unprocessable Entity
pub const HTTP_UNPROCESSABLE_ENTITY: u16 = 422;

/// 429 Too Many Requests
pub const HTTP_TOO_MANY_REQUESTS: u16 = 429;

/// 500 Internal Server Error
pub const HTTP_INTERNAL_SERVER_ERROR: u16 = 500;

/// 503 Service Unavailable
pub const HTTP_SERVICE_UNAVAILABLE: u16 = 503;

/// JSON content type header value
pub const CONTENT_TYPE_JSON: &'static str = "application/json";

/// Plain text content type header value
pub const CONTENT_TYPE_TEXT: &'static str = "text/plain";

/// HTML content type header value
pub const CONTENT_TYPE_HTML: &'static str = "text/html";

/// Standardized error response body
pub struct ErrorResponse {
    pub status: u16,
    pub error: String,
    pub message: String,
    pub code: Option<String>,
}

impl ErrorResponse {
    /// Creates a new error response
    pub fn new(status: u16, error: String, message: String) -> (r: Self)
        ensures
            r.status == status,
            r.error@ == error@,
            r.message@ == message@,
            r.code is None,
    {
        ErrorResponse { status, error, message, code: None }
    }

    /// Creates a new error response with a specific error code
    pub fn with_code(status: u16, error: String, message: String, code: String) -> (r: Self)
        ensures
            r.status == status,
            r.error@ == error@,
            r.message@ == message@,
            r.code matches Some(c) && c@ == code@,
    {
        ErrorResponse { status, error, message, code: Some(code) }
    }

    /// Creates a bad request response
    pub fn bad_request(message: String) -> (r: Self)
        ensures
            r.status == HTTP_BAD_REQUEST,
            r.error@ == "Bad Request"@,
            r.message@ == message@,
            r.code is None,
    {
        Self::new(HTTP_BAD_REQUEST, String::from_str("Bad Request"), message)
    }

    /// Creates an unauthorized response
    pub fn unauthorized(message: String) -> (r: Self)
        ensures
            r.status == HTTP_UNAUTHORIZED,
            r.error@ == "Unauthorized"@,
            r.message@ == message@,
            r.code is None,
    {
        Self::new(HTTP_UNAUTHORIZED, String::from_str("Unauthorized"), message)
    }

    /// Creates a not found response
    pub fn not_found(message: String) -> (r: Self)
        ensures
            r.status == HTTP_NOT_FOUND,
            r.error@ == "Not Found"@,
            r.message@ == message@,
            r.code is None,
    {
        Self::new(HTTP_NOT_FOUND, String::from_str("Not Found"), message)
    }

    /// Creates a payload too large response
    pub fn payload_too_large(message: String) -> (r: Self)
        ensures
            r.status == HTTP_PAYLOAD_TOO_LARGE,
            r.error@ == "Payload Too Large"@,
            r.message@ == message@,
            r.code is None,
    {
        Self::new(HTTP_PAYLOAD_TOO_LARGE, String::from_str("Payload Too Large"), message)
    }

    /// Creates an internal server error response
    pub fn internal_error(message: String) -> (r: Self)
        ensures
            r.status == HTTP_INTERNAL_SERVER_ERROR,
            r.error@ == "Internal Server Error"@,
            r.message@ == message@,
            r.code is None,
    {
        Self::new(HTTP_INTERNAL_SERVER_ERROR, String::from_str("Internal Server Error"), message)
    }
}

} // verus!
