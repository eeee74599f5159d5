//! The request line of RFC 7230 section 3.1.1.
use vstd::prelude::*;

use crate::method::{lemma_method_round_trip, method_token, spec_method, Method};
use crate::scheme::lower;
use crate::status_code::StatusCode;
use crate::uri::{spec_uri, Uri, UriView};
use crate::utils::{lemma_split_first_joins, split_at_next_space, split_first};
use crate::version::{lemma_version_round_trip, spec_version, version_token, Version};

verus! {

/// `request-line = method SP request-target SP HTTP-version`
#[derive(Debug, PartialEq)]
pub struct RequestLine {
    method: Method,
    uri: Uri,
    version: Version,
}

/// What a [`RequestLine`] holds.
pub struct RequestLineView {
    pub method: Method,
    pub uri: UriView,
    pub version: (u8, u8),
}

impl View for RequestLine {
    type V = RequestLineView;

    closed spec fn view(&self) -> RequestLineView {
        RequestLineView { method: self.method, uri: self.uri@, version: self.version@ }
    }
}

/// What reading `s` as a request line gives: the line, or the status that rejects it. A line
/// without two spaces is a bad request; an unknown method is not implemented; a target over
/// [`RequestLine::URI_MAX_LENGTH`] bytes is too long; an invalid target or version is a bad request.
pub open spec fn spec_request_line(s: Seq<u8>) -> Result<RequestLineView, StatusCode> {
    match split_first(s, ' ' as u8) {
        None => Err(StatusCode::BAD_REQUEST),
        Some((m, rest)) => match spec_method(m) {
            None => Err(StatusCode::NOT_IMPLEMENTED),
            Some(method) => match split_first(rest, ' ' as u8) {
                None => Err(StatusCode::BAD_REQUEST),
                Some((u, v)) => if u.len() > RequestLine::URI_MAX_LENGTH {
                    Err(StatusCode::URI_TOO_LONG)
                } else {
                    match (spec_uri(u), spec_version(v)) {
                        (Some(uri), Some(version)) => Ok(RequestLineView { method, uri, version }),
                        _ => Err(StatusCode::BAD_REQUEST),
                    }
                },
            },
        },
    }
}

impl RequestLine {
    /// The longest request target accepted, in bytes.
    pub const URI_MAX_LENGTH: usize = 8000;

    /// Reads a request line: a method, a space, a request target of at most
    /// [`RequestLine::URI_MAX_LENGTH`] bytes, a space and the protocol version.
    pub fn from_bytes(src: &[u8]) -> (r: Result<RequestLine, StatusCode>)
        ensures
            match r {
                Ok(line) => spec_request_line(src@) == Ok::<RequestLineView, StatusCode>(line@),
                Err(e) => spec_request_line(src@) == Err::<RequestLineView, StatusCode>(e),
            },
    {
        let (method_bytes, rest) = match split_at_next_space(src) {
            Some(x) => x,
            None => return Err(StatusCode::BAD_REQUEST),
        };
        let method = match Method::from_bytes(method_bytes) {
            Ok(m) => m,
            Err(e) => return Err(e),
        };
        proof {
            lemma_method_round_trip(method);
        }
        let (uri_bytes, rest) = match split_at_next_space(rest) {
            Some(x) => x,
            None => return Err(StatusCode::BAD_REQUEST),
        };
        if uri_bytes.len() > RequestLine::URI_MAX_LENGTH {
            return Err(StatusCode::URI_TOO_LONG);
        }
        let uri = match Uri::from_bytes(uri_bytes) {
            Ok(u) => u,
            Err(e) => return Err(e),
        };
        let version = match Version::from_bytes(rest) {
            Ok(v) => v,
            Err(e) => return Err(e),
        };
        Ok(RequestLine { method, uri, version })
    }

    /// The method.
    pub fn method(&self) -> (r: Method)
        ensures
            r == self@.method,
    {
        self.method
    }

    /// The request target.
    pub fn uri(&self) -> (r: &Uri)
        ensures
            r@ == self@.uri,
    {
        &self.uri
    }

    /// The protocol version.
    pub fn version(&self) -> (r: Version)
        ensures
            r@ == self@.version,
    {
        self.version
    }
}

/// A request line that reads without error is its method's token, a space, a target that
/// reads as its URI, a space, and the text of its version: serialising the fields gives back
/// the method and the version digits exactly, and the URI's scheme is in lower case.
pub proof fn lemma_request_line_round_trip(s: Seq<u8>)
    requires
        spec_request_line(s) is Ok,
    ensures
        spec_request_line(s) matches Ok(line) && exists|u: Seq<u8>|
            #![trigger spec_uri(u)]
            s == method_token(line.method) + seq![' ' as u8] + u + seq![' ' as u8] + version_token(
                line.version.0,
                line.version.1,
            ) && spec_uri(u) == Some(line.uri) && line.version.0 < 10 && line.version.1 < 10
                && forall|i: int|
                0 <= i < line.uri.scheme.len() ==> lower(#[trigger] line.uri.scheme[i])
                    == line.uri.scheme[i],
{
    let line = spec_request_line(s)->Ok_0;
    lemma_split_first_joins(s, ' ' as u8);
    let (m, rest) = split_first(s, ' ' as u8).unwrap();
    lemma_split_first_joins(rest, ' ' as u8);
    let (u, v) = split_first(rest, ' ' as u8).unwrap();
    lemma_version_round_trip(v);
    assert(method_token(line.method) == m);
    assert(s =~= method_token(line.method) + seq![' ' as u8] + u + seq![' ' as u8] + version_token(
        line.version.0,
        line.version.1,
    ));
    crate::scheme::lemma_scheme_lower(crate::uri::split_scheme(u).0);
}

} // verus!
