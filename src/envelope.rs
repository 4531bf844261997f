//! The one response envelope that every handler of the gateway returns, and the
//! table that maps it to an HTTP status.
use vstd::prelude::*;

verus! {

pub const STATUS_OK: u16 = 200;

pub const STATUS_BAD_REQUEST: u16 = 400;

pub const STATUS_UNAUTHORIZED: u16 = 401;

pub const STATUS_NOT_FOUND: u16 = 404;

pub const STATUS_INTERNAL_ERROR: u16 = 500;

/// A status that an HTTP response can carry: three decimal digits.
pub open spec fn is_http_status(code: u16) -> bool {
    100 <= code <= 999
}

/// Relies on `http::StatusCode::from_u16` (re-exported by hyper), which accepts
/// exactly the codes 100 through 999.
#[verifier::external_body]
fn status_code_accepted(code: u16) -> (r: bool)
    ensures
        r == is_http_status(code),
{
    hyper::StatusCode::from_u16(code).is_ok()
}

/// The status sent for a carried code: the code itself where HTTP can carry it,
/// 500 otherwise.
pub open spec fn status_or_internal(code: u16) -> u16 {
    if is_http_status(code) {
        code
    } else {
        STATUS_INTERNAL_ERROR
    }
}

/// The result of every handler: a payload, or an error with the status to send.
pub enum ApiResponse<T> {
    Success(T),
    Error { status: u16, message: String },
}

impl<T> ApiResponse<T> {
    /// The HTTP status that the boundary sends for this result.
    pub open spec fn spec_http_status(&self) -> u16 {
        match self {
            ApiResponse::Success(_) => STATUS_OK,
            ApiResponse::Error { status, .. } => status_or_internal(*status),
        }
    }

    /// Whether this is an error with the given status and message.
    pub open spec fn is_error(&self, status: u16, message: Seq<char>) -> bool {
        match self {
            ApiResponse::Error { status: s, message: m } => *s == status && m@ == message,
            _ => false,
        }
    }

    pub fn ok(data: T) -> (r: Self)
        ensures
            r == ApiResponse::Success(data),
    {
        ApiResponse::Success(data)
    }

    /// A creation that succeeded; the boundary sends it as any other success.
    pub fn created(data: T) -> (r: Self)
        ensures
            r == ApiResponse::Success(data),
    {
        ApiResponse::Success(data)
    }

    pub fn error(status: u16, message: &str) -> (r: Self)
        ensures
            r.is_error(status, message@),
    {
        ApiResponse::Error { status, message: message.to_owned() }
    }

    pub fn bad_request(message: &str) -> (r: Self)
        ensures
            r.is_error(STATUS_BAD_REQUEST, message@),
    {
        ApiResponse::error(STATUS_BAD_REQUEST, message)
    }

    pub fn unauthorized(message: &str) -> (r: Self)
        ensures
            r.is_error(STATUS_UNAUTHORIZED, message@),
    {
        ApiResponse::error(STATUS_UNAUTHORIZED, message)
    }

    pub fn not_found(message: &str) -> (r: Self)
        ensures
            r.is_error(STATUS_NOT_FOUND, message@),
    {
        ApiResponse::error(STATUS_NOT_FOUND, message)
    }

    pub fn internal_error(message: &str) -> (r: Self)
        ensures
            r.is_error(STATUS_INTERNAL_ERROR, message@),
    {
        ApiResponse::error(STATUS_INTERNAL_ERROR, message)
    }

    pub fn is_success(&self) -> (r: bool)
        ensures
            r == (self is Success),
    {
        match self {
            ApiResponse::Success(_) => true,
            ApiResponse::Error { .. } => false,
        }
    }

    /// The HTTP status that the boundary sends for this result: 200 for a
    /// success, the carried status for an error where HTTP can carry it, and
    /// 500 where it cannot.
    pub fn http_status(&self) -> (r: u16)
        ensures
            r == self.spec_http_status(),
            is_http_status(r),
    {
        match self {
            ApiResponse::Success(_) => STATUS_OK,
            ApiResponse::Error { status, .. } => {
                if status_code_accepted(*status) {
                    *status
                } else {
                    STATUS_INTERNAL_ERROR
                }
            },
        }
    }
}

/// The envelope as it goes on the wire: the status actually sent, and exactly
/// one of a payload or an error message.
pub struct ServiceResponse<T> {
    pub status: u16,
    pub message: Option<String>,
    pub data: Option<T>,
}

impl<T> ServiceResponse<T> {
    /// Exactly one of payload and message is present, and the status is one
    /// that HTTP can carry.
    pub open spec fn wf(&self) -> bool {
        &&& is_http_status(self.status)
        &&& (self.data is Some) != (self.message is Some)
    }

    pub fn ok(data: T) -> (r: Self)
        ensures
            r.wf(),
            r.status == STATUS_OK,
            r.data == Some(data),
    {
        ServiceResponse { status: STATUS_OK, message: None, data: Some(data) }
    }

    pub fn not_found(message: &str) -> (r: Self)
        ensures
            r.wf(),
            r.status == STATUS_NOT_FOUND,
            r.data is None,
            r.message matches Some(m) && m@ == message@,
    {
        ServiceResponse { status: STATUS_NOT_FOUND, message: Some(message.to_owned()), data: None }
    }

    pub fn internal_error(message: &str) -> (r: Self)
        ensures
            r.wf(),
            r.status == STATUS_INTERNAL_ERROR,
            r.data is None,
            r.message matches Some(m) && m@ == message@,
    {
        ServiceResponse {
            status: STATUS_INTERNAL_ERROR,
            message: Some(message.to_owned()),
            data: None,
        }
    }

    /// The wire form of a handler's result: a success under status 200 with
    /// its payload, an error under the status the boundary sends with its
    /// message.
    pub fn from_api(response: ApiResponse<T>) -> (r: Self)
        ensures
            r.wf(),
            r.status == response.spec_http_status(),
            match response {
                ApiResponse::Success(d) => r.data == Some(d) && r.message is None,
                ApiResponse::Error { message, .. } => r.data is None && r.message == Some(
                    message,
                ),
            },
    {
        let status = response.http_status();
        match response {
            ApiResponse::Success(d) => ServiceResponse { status, message: None, data: Some(d) },
            ApiResponse::Error { message, .. } => ServiceResponse {
                status,
                message: Some(message),
                data: None,
            },
        }
    }
}

} // verus!
