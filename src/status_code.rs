//! Response status codes of RFC 7231 section 6 and their reason phrases.
use vstd::prelude::*;

verus! {

/// The status codes this library knows, each with its three-digit code and reason phrase.
#[allow(non_camel_case_types)]
#[derive(Clone, Copy, Debug, PartialEq, Eq, Structural, Hash)]
pub enum StatusCode {
    /// 100 Continue
    CONTINUE,
    /// 101 Switching Protocols
    SWITCHING_PROTOCOLS,
    /// 200 OK
    OK,
    /// 201 Created
    CREATED,
    /// 202 Accepted
    ACCEPTED,
    /// 203 Non-Authoritative Information
    NON_AUTHRITATIVE_INFORMATION,
    /// 204 No Content
    NO_CONTENT,
    /// 205 Reset Content
    RESET_CONTENT,
    /// 206 Partial Content
    PARTIAL_CONTENT,
    /// 300 Multiple Choices
    MULTIPLE_CHOICES,
    /// 301 Moved Permanently
    MOVED_PERMANENTLY,
    /// 302 Found
    FOUND,
    /// 303 See Other
    SEE_OTHER,
    /// 304 Not Modified
    NOT_MODIFIED,
    /// 305 Use Proxy
    USE_PROXY,
    /// 307 Temporary Redirect
    TEMPORARY_REDIRECT,
    /// 400 Bad Request
    BAD_REQUEST,
    /// 401 Unauthorized
    UNAUTHORIZED,
    /// 402 Payment Required
    PAYMENT_REQUIRED,
    /// 403 Forbidden
    FORBIDDEN,
    /// 404 Not Found
    NOT_FOUND,
    /// 405 Method Not Allowed
    METHOD_NOT_ALLOWED,
    /// 406 Not Acceptable
    NOT_ACCEPTABLE,
    /// 407 Proxy Authentication Required
    PROXY_AUTHENTICATION_REQUIRED,
    /// 408 Request Timeout
    REQUEST_TIMEOUT,
    /// 409 Conflict
    CONFLICT,
    /// 410 Gone
    GONE,
    /// 411 Length Required
    LENGTH_REQUIRED,
    /// 412 Precondition Failed
    PRECONDITION_FAILED,
    /// 413 Payload Too Large
    PAYLOAD_TOO_LARGE,
    /// 414 URI Too Long
    URI_TOO_LONG,
    /// 415 Unsupported Media Type
    UNSUPPORTED_MEDIA_TYPE,
    /// 416 Range Not Satisfiable
    RANGE_NOT_SATISFIABLE,
    /// 417 Expectation Failed
    EXPECTATION_FAILED,
    /// 426 Upgrade Required
    UPGRADE_REQUIRED,
    /// 500 Internal Server Error
    INTERNAL_SERVER_ERROR,
    /// 501 Not Implemented
    NOT_IMPLEMENTED,
    /// 502 Bad Gateway
    BAD_GATEWAY,
    /// 503 Service Unavailable
    SERVICE_UNAVAILABLE,
    /// 504 Gateway Timeout
    GATEWAY_TIMEOUT,
    /// 505 HTTP Version Not Supported
    HTTP_VERSION_NOT_SUPPORTED,
}

/// The error of [`StatusCode::from_bytes`]: the bytes are not a known three-digit code.
#[derive(Clone, Copy, Debug, PartialEq, Eq, Structural)]
pub struct InvalidStatusCode;

/// The numeric code of a status.
pub open spec fn code_of(s: StatusCode) -> u16 {
    match s {
        StatusCode::CONTINUE => 100,
        StatusCode::SWITCHING_PROTOCOLS => 101,
        StatusCode::OK => 200,
        StatusCode::CREATED => 201,
        StatusCode::ACCEPTED => 202,
        StatusCode::NON_AUTHRITATIVE_INFORMATION => 203,
        StatusCode::NO_CONTENT => 204,
        StatusCode::RESET_CONTENT => 205,
        StatusCode::PARTIAL_CONTENT => 206,
        StatusCode::MULTIPLE_CHOICES => 300,
        StatusCode::MOVED_PERMANENTLY => 301,
        StatusCode::FOUND => 302,
        StatusCode::SEE_OTHER => 303,
        StatusCode::NOT_MODIFIED => 304,
        StatusCode::USE_PROXY => 305,
        StatusCode::TEMPORARY_REDIRECT => 307,
        StatusCode::BAD_REQUEST => 400,
        StatusCode::UNAUTHORIZED => 401,
        StatusCode::PAYMENT_REQUIRED => 402,
        StatusCode::FORBIDDEN => 403,
        StatusCode::NOT_FOUND => 404,
        StatusCode::METHOD_NOT_ALLOWED => 405,
        StatusCode::NOT_ACCEPTABLE => 406,
        StatusCode::PROXY_AUTHENTICATION_REQUIRED => 407,
        StatusCode::REQUEST_TIMEOUT => 408,
        StatusCode::CONFLICT => 409,
        StatusCode::GONE => 410,
        StatusCode::LENGTH_REQUIRED => 411,
        StatusCode::PRECONDITION_FAILED => 412,
        StatusCode::PAYLOAD_TOO_LARGE => 413,
        StatusCode::URI_TOO_LONG => 414,
        StatusCode::UNSUPPORTED_MEDIA_TYPE => 415,
        StatusCode::RANGE_NOT_SATISFIABLE => 416,
        StatusCode::EXPECTATION_FAILED => 417,
        StatusCode::UPGRADE_REQUIRED => 426,
        StatusCode::INTERNAL_SERVER_ERROR => 500,
        StatusCode::NOT_IMPLEMENTED => 501,
        StatusCode::BAD_GATEWAY => 502,
        StatusCode::SERVICE_UNAVAILABLE => 503,
        StatusCode::GATEWAY_TIMEOUT => 504,
        StatusCode::HTTP_VERSION_NOT_SUPPORTED => 505,
    }
}

/// The reason phrase of a status.
pub open spec fn reason_of(s: StatusCode) -> Seq<char> {
    match s {
        StatusCode::CONTINUE => "Continue"@,
        StatusCode::SWITCHING_PROTOCOLS => "Switching Protocols"@,
        StatusCode::OK => "OK"@,
        StatusCode::CREATED => "Created"@,
        StatusCode::ACCEPTED => "Accepted"@,
        StatusCode::NON_AUTHRITATIVE_INFORMATION => "Non-Authoritative Information"@,
        StatusCode::NO_CONTENT => "No Content"@,
        StatusCode::RESET_CONTENT => "Reset Content"@,
        StatusCode::PARTIAL_CONTENT => "Partial Content"@,
        StatusCode::MULTIPLE_CHOICES => "Multiple Choices"@,
        StatusCode::MOVED_PERMANENTLY => "Moved Permanently"@,
        StatusCode::FOUND => "Found"@,
        StatusCode::SEE_OTHER => "See Other"@,
        StatusCode::NOT_MODIFIED => "Not Modified"@,
        StatusCode::USE_PROXY => "Use Proxy"@,
        StatusCode::TEMPORARY_REDIRECT => "Temporary Redirect"@,
        StatusCode::BAD_REQUEST => "Bad Request"@,
        StatusCode::UNAUTHORIZED => "Unauthorized"@,
        StatusCode::PAYMENT_REQUIRED => "Payment Required"@,
        StatusCode::FORBIDDEN => "Forbidden"@,
        StatusCode::NOT_FOUND => "Not Found"@,
        StatusCode::METHOD_NOT_ALLOWED => "Method Not Allowed"@,
        StatusCode::NOT_ACCEPTABLE => "Not Acceptable"@,
        StatusCode::PROXY_AUTHENTICATION_REQUIRED => "Proxy Authentication Required"@,
        StatusCode::REQUEST_TIMEOUT => "Request Timeout"@,
        StatusCode::CONFLICT => "Conflict"@,
        StatusCode::GONE => "Gone"@,
        StatusCode::LENGTH_REQUIRED => "Length Required"@,
        StatusCode::PRECONDITION_FAILED => "Precondition Failed"@,
        StatusCode::PAYLOAD_TOO_LARGE => "Payload Too Large"@,
        StatusCode::URI_TOO_LONG => "URI Too Long"@,
        StatusCode::UNSUPPORTED_MEDIA_TYPE => "Unsupported Media Type"@,
        StatusCode::RANGE_NOT_SATISFIABLE => "Range Not Satisfiable"@,
        StatusCode::EXPECTATION_FAILED => "Expectation Failed"@,
        StatusCode::UPGRADE_REQUIRED => "Upgrade Required"@,
        StatusCode::INTERNAL_SERVER_ERROR => "Internal Server Error"@,
        StatusCode::NOT_IMPLEMENTED => "Not Implemented"@,
        StatusCode::BAD_GATEWAY => "Bad Gateway"@,
        StatusCode::SERVICE_UNAVAILABLE => "Service Unavailable"@,
        StatusCode::GATEWAY_TIMEOUT => "Gateway Timeout"@,
        StatusCode::HTTP_VERSION_NOT_SUPPORTED => "HTTP Version Not Supported"@,
    }
}

/// Three ASCII digits, the first of them not `0`, read as a decimal number.
pub open spec fn three_digit_code(s: Seq<u8>) -> Option<u16> {
    if s.len() == 3 && '1' as u8 <= s[0] <= '9' as u8 && crate::abnf::digit(s[1])
        && crate::abnf::digit(s[2]) {
        Some(((s[0] - '0' as u8) * 100 + (s[1] - '0' as u8) * 10 + (s[2] - '0' as u8)) as u16)
    } else {
        None
    }
}

/// What [`StatusCode::from_bytes`] makes of `s`.
pub open spec fn spec_status_code(s: Seq<u8>) -> Option<StatusCode> {
    match three_digit_code(s) {
        Some(c) => if exists|k: StatusCode| code_of(k) == c {
            Some(choose|k: StatusCode| code_of(k) == c)
        } else {
            None
        },
        None => None,
    }
}

impl StatusCode {
    /// The three-digit code.
    pub fn code(&self) -> (r: u16)
        ensures
            r == code_of(*self),
    {
        match self {
            StatusCode::CONTINUE => 100,
            StatusCode::SWITCHING_PROTOCOLS => 101,
            StatusCode::OK => 200,
            StatusCode::CREATED => 201,
            StatusCode::ACCEPTED => 202,
            StatusCode::NON_AUTHRITATIVE_INFORMATION => 203,
            StatusCode::NO_CONTENT => 204,
            StatusCode::RESET_CONTENT => 205,
            StatusCode::PARTIAL_CONTENT => 206,
            StatusCode::MULTIPLE_CHOICES => 300,
            StatusCode::MOVED_PERMANENTLY => 301,
            StatusCode::FOUND => 302,
            StatusCode::SEE_OTHER => 303,
            StatusCode::NOT_MODIFIED => 304,
            StatusCode::USE_PROXY => 305,
            StatusCode::TEMPORARY_REDIRECT => 307,
            StatusCode::BAD_REQUEST => 400,
            StatusCode::UNAUTHORIZED => 401,
            StatusCode::PAYMENT_REQUIRED => 402,
            StatusCode::FORBIDDEN => 403,
            StatusCode::NOT_FOUND => 404,
            StatusCode::METHOD_NOT_ALLOWED => 405,
            StatusCode::NOT_ACCEPTABLE => 406,
            StatusCode::PROXY_AUTHENTICATION_REQUIRED => 407,
            StatusCode::REQUEST_TIMEOUT => 408,
            StatusCode::CONFLICT => 409,
            StatusCode::GONE => 410,
            StatusCode::LENGTH_REQUIRED => 411,
            StatusCode::PRECONDITION_FAILED => 412,
            StatusCode::PAYLOAD_TOO_LARGE => 413,
            StatusCode::URI_TOO_LONG => 414,
            StatusCode::UNSUPPORTED_MEDIA_TYPE => 415,
            StatusCode::RANGE_NOT_SATISFIABLE => 416,
            StatusCode::EXPECTATION_FAILED => 417,
            StatusCode::UPGRADE_REQUIRED => 426,
            StatusCode::INTERNAL_SERVER_ERROR => 500,
            StatusCode::NOT_IMPLEMENTED => 501,
            StatusCode::BAD_GATEWAY => 502,
            StatusCode::SERVICE_UNAVAILABLE => 503,
            StatusCode::GATEWAY_TIMEOUT => 504,
            StatusCode::HTTP_VERSION_NOT_SUPPORTED => 505,
        }
    }

    /// The reason phrase that goes with the code.
    pub fn reason(&self) -> (r: &'static str)
        ensures
            r@ == reason_of(*self),
    {
        match self {
            StatusCode::CONTINUE => "Continue",
            StatusCode::SWITCHING_PROTOCOLS => "Switching Protocols",
            StatusCode::OK => "OK",
            StatusCode::CREATED => "Created",
            StatusCode::ACCEPTED => "Accepted",
            StatusCode::NON_AUTHRITATIVE_INFORMATION => "Non-Authoritative Information",
            StatusCode::NO_CONTENT => "No Content",
            StatusCode::RESET_CONTENT => "Reset Content",
            StatusCode::PARTIAL_CONTENT => "Partial Content",
            StatusCode::MULTIPLE_CHOICES => "Multiple Choices",
            StatusCode::MOVED_PERMANENTLY => "Moved Permanently",
            StatusCode::FOUND => "Found",
            StatusCode::SEE_OTHER => "See Other",
            StatusCode::NOT_MODIFIED => "Not Modified",
            StatusCode::USE_PROXY => "Use Proxy",
            StatusCode::TEMPORARY_REDIRECT => "Temporary Redirect",
            StatusCode::BAD_REQUEST => "Bad Request",
            StatusCode::UNAUTHORIZED => "Unauthorized",
            StatusCode::PAYMENT_REQUIRED => "Payment Required",
            StatusCode::FORBIDDEN => "Forbidden",
            StatusCode::NOT_FOUND => "Not Found",
            StatusCode::METHOD_NOT_ALLOWED => "Method Not Allowed",
            StatusCode::NOT_ACCEPTABLE => "Not Acceptable",
            StatusCode::PROXY_AUTHENTICATION_REQUIRED => "Proxy Authentication Required",
            StatusCode::REQUEST_TIMEOUT => "Request Timeout",
            StatusCode::CONFLICT => "Conflict",
            StatusCode::GONE => "Gone",
            StatusCode::LENGTH_REQUIRED => "Length Required",
            StatusCode::PRECONDITION_FAILED => "Precondition Failed",
            StatusCode::PAYLOAD_TOO_LARGE => "Payload Too Large",
            StatusCode::URI_TOO_LONG => "URI Too Long",
            StatusCode::UNSUPPORTED_MEDIA_TYPE => "Unsupported Media Type",
            StatusCode::RANGE_NOT_SATISFIABLE => "Range Not Satisfiable",
            StatusCode::EXPECTATION_FAILED => "Expectation Failed",
            StatusCode::UPGRADE_REQUIRED => "Upgrade Required",
            StatusCode::INTERNAL_SERVER_ERROR => "Internal Server Error",
            StatusCode::NOT_IMPLEMENTED => "Not Implemented",
            StatusCode::BAD_GATEWAY => "Bad Gateway",
            StatusCode::SERVICE_UNAVAILABLE => "Service Unavailable",
            StatusCode::GATEWAY_TIMEOUT => "Gateway Timeout",
            StatusCode::HTTP_VERSION_NOT_SUPPORTED => "HTTP Version Not Supported",
        }
    }

    /// The status whose code is `code`, if this library knows one.
    pub fn from_code(code: u16) -> (r: Option<StatusCode>)
        ensures
            match r {
                Some(s) => code_of(s) == code,
                None => forall|k: StatusCode| code_of(k) != code,
            },
    {
        match code {
            100 => Some(StatusCode::CONTINUE),
            101 => Some(StatusCode::SWITCHING_PROTOCOLS),
            200 => Some(StatusCode::OK),
            201 => Some(StatusCode::CREATED),
            202 => Some(StatusCode::ACCEPTED),
            203 => Some(StatusCode::NON_AUTHRITATIVE_INFORMATION),
            204 => Some(StatusCode::NO_CONTENT),
            205 => Some(StatusCode::RESET_CONTENT),
            206 => Some(StatusCode::PARTIAL_CONTENT),
            300 => Some(StatusCode::MULTIPLE_CHOICES),
            301 => Some(StatusCode::MOVED_PERMANENTLY),
            302 => Some(StatusCode::FOUND),
            303 => Some(StatusCode::SEE_OTHER),
            304 => Some(StatusCode::NOT_MODIFIED),
            305 => Some(StatusCode::USE_PROXY),
            307 => Some(StatusCode::TEMPORARY_REDIRECT),
            400 => Some(StatusCode::BAD_REQUEST),
            401 => Some(StatusCode::UNAUTHORIZED),
            402 => Some(StatusCode::PAYMENT_REQUIRED),
            403 => Some(StatusCode::FORBIDDEN),
            404 => Some(StatusCode::NOT_FOUND),
            405 => Some(StatusCode::METHOD_NOT_ALLOWED),
            406 => Some(StatusCode::NOT_ACCEPTABLE),
            407 => Some(StatusCode::PROXY_AUTHENTICATION_REQUIRED),
            408 => Some(StatusCode::REQUEST_TIMEOUT),
            409 => Some(StatusCode::CONFLICT),
            410 => Some(StatusCode::GONE),
            411 => Some(StatusCode::LENGTH_REQUIRED),
            412 => Some(StatusCode::PRECONDITION_FAILED),
            413 => Some(StatusCode::PAYLOAD_TOO_LARGE),
            414 => Some(StatusCode::URI_TOO_LONG),
            415 => Some(StatusCode::UNSUPPORTED_MEDIA_TYPE),
            416 => Some(StatusCode::RANGE_NOT_SATISFIABLE),
            417 => Some(StatusCode::EXPECTATION_FAILED),
            426 => Some(StatusCode::UPGRADE_REQUIRED),
            500 => Some(StatusCode::INTERNAL_SERVER_ERROR),
            501 => Some(StatusCode::NOT_IMPLEMENTED),
            502 => Some(StatusCode::BAD_GATEWAY),
            503 => Some(StatusCode::SERVICE_UNAVAILABLE),
            504 => Some(StatusCode::GATEWAY_TIMEOUT),
            505 => Some(StatusCode::HTTP_VERSION_NOT_SUPPORTED),
            _ => None,
        }
    }

    /// Reads a status code from exactly three ASCII digits; any other input, or a code that
    /// this library does not know, is an [`InvalidStatusCode`].
    pub fn from_bytes(src: &[u8]) -> (r: Result<StatusCode, InvalidStatusCode>)
        ensures
            match r {
                Ok(s) => spec_status_code(src@) == Some(s),
                Err(_) => spec_status_code(src@) is None,
            },
    {
        if src.len() == 3 && '1' as u8 <= src[0] && src[0] <= '9' as u8 && '0' as u8 <= src[1]
            && src[1] <= '9' as u8 && '0' as u8 <= src[2] && src[2] <= '9' as u8 {
            let code = (src[0] - '0' as u8) as u16 * 100 + (src[1] - '0' as u8) as u16 * 10 + (
            src[2] - '0' as u8) as u16;
            match StatusCode::from_code(code) {
                Some(s) => {
                    proof {
                        lemma_code_injective(s);
                    }
                    Ok(s)
                },
                None => Err(InvalidStatusCode),
            }
        } else {
            Err(InvalidStatusCode)
        }
    }
}

/// No two statuses share a code.
pub proof fn lemma_code_injective(s: StatusCode)
    ensures
        forall|k: StatusCode| code_of(k) == code_of(s) ==> k == s,
{
}

} // verus!
