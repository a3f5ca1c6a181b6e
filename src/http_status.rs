use vstd::prelude::*;
use crate::status::Status;

verus! {

/// An HTTP status code.
#[derive(PartialEq, Eq, Structural, Clone, Copy, Debug)]
pub struct HTTPStatus(pub usize);

/// The error of a conversion to an HTTP status code: the input was not a
/// number of three digits from 100 to 599.
#[derive(Clone, Copy, Debug)]
pub struct InvalidHTTPStatusCode {
    _priv: (),
}

impl InvalidHTTPStatusCode {
    /// The error value.
    pub fn new() -> (r: InvalidHTTPStatusCode) {
        InvalidHTTPStatusCode { _priv: () }
    }

    /// The message of the error.
    pub fn message(&self) -> (r: &'static str)
        ensures
            r@ == "invalid status code"@,
    {
        "invalid status code"
    }
}

/// `d` is the ASCII digit of a value from `lo` to `hi`.
pub open spec fn digit_in(d: u8, lo: int, hi: int) -> bool {
    48 + lo <= d <= 48 + hi
}

/// `b` spells a status code: three digits, the first from 1 to 5.
pub open spec fn is_status_text(b: Seq<u8>) -> bool {
    b.len() == 3 && digit_in(b[0], 1, 5) && digit_in(b[1], 0, 9) && digit_in(b[2], 0, 9)
}

/// The number that three ASCII digits spell.
pub open spec fn status_text_value(b: Seq<u8>) -> int {
    (b[0] - 48) * 100 + (b[1] - 48) * 10 + (b[2] - 48)
}

impl HTTPStatus {
    /// Converts a number to a status code: codes from 100 to 599 are valid.
    pub fn from_u16(src: u16) -> (r: Result<HTTPStatus, InvalidHTTPStatusCode>)
        ensures
            (100 <= src < 600) == r.is_ok(),
            r matches Ok(s) ==> s.0 == src,
    {
        if !(100 <= src && src < 600) {
            return Err(InvalidHTTPStatusCode::new());
        }
        Ok(HTTPStatus(src as usize))
    }

    /// Converts three ASCII digits to a status code: the first digit must be
    /// from 1 to 5.
    pub fn from_bytes(src: &[u8]) -> (r: Result<HTTPStatus, InvalidHTTPStatusCode>)
        ensures
            is_status_text(src@) == r.is_ok(),
            r matches Ok(s) ==> s.0 == status_text_value(src@),
    {
        if src.len() != 3 {
            return Err(InvalidHTTPStatusCode::new());
        }
        let a = src[0].wrapping_sub(48u8) as u16;
        let b = src[1].wrapping_sub(48u8) as u16;
        let c = src[2].wrapping_sub(48u8) as u16;
        if a == 0 || a > 5 || b > 9 || c > 9 {
            return Err(InvalidHTTPStatusCode::new());
        }
        let status = (a * 100) + (b * 10) + c;
        Ok(HTTPStatus(status as usize))
    }

    /// The code as a number.
    pub fn code(&self) -> (r: usize)
        ensures
            r == self.0,
    {
        self.0
    }
}

/// A code that `from_bytes` accepts is one that `from_u16` accepts.
pub proof fn lemma_status_text_in_range(b: Seq<u8>)
    requires
        is_status_text(b),
    ensures
        100 <= status_text_value(b) < 600,
{
}

impl From<HTTPStatus> for Status {
    fn from(val: HTTPStatus) -> (r: Status) {
        Status(val.0 as isize)
    }
}

impl vstd::std_specs::convert::FromSpecImpl<HTTPStatus> for Status {
    open spec fn obeys_from_spec() -> bool {
        true
    }

    open spec fn from_spec(val: HTTPStatus) -> Status {
        Status(val.0 as isize)
    }
}

/// 100 Continue
pub const HTTP_CONTINUE: usize = 100;
/// 101 Switching Protocols
pub const HTTP_SWITCHING_PROTOCOLS: usize = 101;
/// 102 Processing
pub const HTTP_PROCESSING: usize = 102;
/// 200 OK
pub const HTTP_OK: usize = 200;
/// 201 Created
pub const HTTP_CREATED: usize = 201;
/// 202 Accepted
pub const HTTP_ACCEPTED: usize = 202;
/// 204 No Content
pub const HTTP_NO_CONTENT: usize = 204;
/// 206 Partial Content
pub const HTTP_PARTIAL_CONTENT: usize = 206;
/// 300: the lowest code of a special response
pub const HTTP_SPECIAL_RESPONSE: usize = 300;
/// 301 Moved Permanently
pub const HTTP_MOVED_PERMANENTLY: usize = 301;
/// 302 Moved Temporarily
pub const HTTP_MOVED_TEMPORARILY: usize = 302;
/// 303 See Other
pub const HTTP_SEE_OTHER: usize = 303;
/// 304 Not Modified
pub const HTTP_NOT_MODIFIED: usize = 304;
/// 307 Temporary Redirect
pub const HTTP_TEMPORARY_REDIRECT: usize = 307;
/// 308 Permanent Redirect
pub const HTTP_PERMANENT_REDIRECT: usize = 308;
/// 400 Bad Request
pub const HTTP_BAD_REQUEST: usize = 400;
/// 401 Unauthorized
pub const HTTP_UNAUTHORIZED: usize = 401;
/// 403 Forbidden
pub const HTTP_FORBIDDEN: usize = 403;
/// 404 Not Found
pub const HTTP_NOT_FOUND: usize = 404;
/// 405 Method Not Allowed
pub const HTTP_NOT_ALLOWED: usize = 405;
/// 408 Request Time Out
pub const HTTP_REQUEST_TIME_OUT: usize = 408;
/// 409 Conflict
pub const HTTP_CONFLICT: usize = 409;
/// 411 Length Required
pub const HTTP_LENGTH_REQUIRED: usize = 411;
/// 412 Precondition Failed
pub const HTTP_PRECONDITION_FAILED: usize = 412;
/// 413 Payload Too Large
pub const HTTP_REQUEST_ENTITY_TOO_LARGE: usize = 413;
/// 414 Request Uri Too Large
pub const HTTP_REQUEST_URI_TOO_LARGE: usize = 414;
/// 415 Unsupported Media Type
pub const HTTP_UNSUPPORTED_MEDIA_TYPE: usize = 415;
/// 416 Range Not Satisfiable
pub const HTTP_RANGE_NOT_SATISFIABLE: usize = 416;
/// 421 Misdirected Request
pub const HTTP_MISDIRECTED_REQUEST: usize = 421;
/// 429 Too Many Requests
pub const HTTP_TOO_MANY_REQUESTS: usize = 429;
/// 444: close the connection without any response
pub const HTTP_CLOSE: usize = 444;
/// 494: the lowest of nginx's own codes
pub const HTTP_NGINX_CODES: usize = 494;
/// 494: request header too large
pub const HTTP_REQUEST_HEADER_TOO_LARGE: usize = 494;
/// 495: client certificate error
pub const HTTP_HTTPS_CERT_ERROR: usize = 495;
/// 496: no client certificate
pub const HTTP_HTTPS_NO_CERT: usize = 496;
/// 497: a plain HTTP request sent to an HTTPS port
pub const HTTP_TO_HTTPS: usize = 497;
/// 499: the client closed the request
pub const HTTP_CLIENT_CLOSED_REQUEST: usize = 499;
/// 500 Internal Server Error
pub const HTTP_INTERNAL_SERVER_ERROR: usize = 500;
/// 501 Not Implemented
pub const HTTP_NOT_IMPLEMENTED: usize = 501;
/// 502 Bad Gateway
pub const HTTP_BAD_GATEWAY: usize = 502;
/// 503 Service Unavailable
pub const HTTP_SERVICE_UNAVAILABLE: usize = 503;
/// 504 Gateway Time Out
pub const HTTP_GATEWAY_TIME_OUT: usize = 504;
/// 505 Version Not Supported
pub const HTTP_VERSION_NOT_SUPPORTED: usize = 505;
/// 507 Insufficient Storage
pub const HTTP_INSUFFICIENT_STORAGE: usize = 507;

} // verus!
