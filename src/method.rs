//! Request methods of RFC 7231 section 4.
use vstd::prelude::*;

use crate::status_code::StatusCode;
use crate::utils::bytes_eq;

verus! {

/// The request methods of RFC 7231 section 4.
#[derive(Clone, Copy, Debug, PartialEq, Eq, Structural, Hash)]
pub enum Method {
    /// Transfer a current representation of the target resource.
    Get,
    /// Same as [`Method::Get`], but only transfer the status line and header section.
    Head,
    /// Perform resource-specific processing on the request payload.
    Post,
    /// Replace all current representations of the target resource with the request payload.
    Put,
    /// Remove all current representations of the target resource.
    Delete,
    /// Establish a tunnel to the server identified by the target resource.
    Connect,
    /// Describe the communication options for the target resource.
    Options,
    /// Perform a message loop-back test along the path to the target resource.
    Trace,
}

/// The token that names a method on the request line.
pub open spec fn method_token(m: Method) -> Seq<u8> {
    match m {
        Method::Get => seq!['G' as u8, 'E' as u8, 'T' as u8],
        Method::Head => seq!['H' as u8, 'E' as u8, 'A' as u8, 'D' as u8],
        Method::Post => seq!['P' as u8, 'O' as u8, 'S' as u8, 'T' as u8],
        Method::Put => seq!['P' as u8, 'U' as u8, 'T' as u8],
        Method::Delete => seq!['D' as u8, 'E' as u8, 'L' as u8, 'E' as u8, 'T' as u8, 'E' as u8],
        Method::Connect => seq!['C' as u8, 'O' as u8, 'N' as u8, 'N' as u8, 'E' as u8, 'C' as u8, 'T' as u8],
        Method::Options => seq!['O' as u8, 'P' as u8, 'T' as u8, 'I' as u8, 'O' as u8, 'N' as u8, 'S' as u8],
        Method::Trace => seq!['T' as u8, 'R' as u8, 'A' as u8, 'C' as u8, 'E' as u8],
    }
}

/// The method that `s` names, if any.
pub open spec fn spec_method(s: Seq<u8>) -> Option<Method> {
    if exists|m: Method| method_token(m) == s {
        Some(choose|m: Method| method_token(m) == s)
    } else {
        None
    }
}

impl Method {
    /// The token that names this method on the request line.
    pub fn to_bytes(&self) -> (r: Vec<u8>)
        ensures
            r@ == method_token(*self),
    {
        let v = match self {
            Method::Get => vec!['G' as u8, 'E' as u8, 'T' as u8],
            Method::Head => vec!['H' as u8, 'E' as u8, 'A' as u8, 'D' as u8],
            Method::Post => vec!['P' as u8, 'O' as u8, 'S' as u8, 'T' as u8],
            Method::Put => vec!['P' as u8, 'U' as u8, 'T' as u8],
            Method::Delete => vec!['D' as u8, 'E' as u8, 'L' as u8, 'E' as u8, 'T' as u8, 'E' as u8],
            Method::Connect => vec!['C' as u8, 'O' as u8, 'N' as u8, 'N' as u8, 'E' as u8, 'C' as u8, 'T' as u8],
            Method::Options => vec!['O' as u8, 'P' as u8, 'T' as u8, 'I' as u8, 'O' as u8, 'N' as u8, 'S' as u8],
            Method::Trace => vec!['T' as u8, 'R' as u8, 'A' as u8, 'C' as u8, 'E' as u8],
        };
        assert(v@ =~= method_token(*self));
        v
    }

    /// Reads a method from its token. A token of no method known here is
    /// [`StatusCode::NOT_IMPLEMENTED`].
    pub fn from_bytes(src: &[u8]) -> (r: Result<Method, StatusCode>)
        ensures
            match r {
                Ok(m) => method_token(m) == src@,
                Err(e) => e == StatusCode::NOT_IMPLEMENTED && forall|m: Method|
                    method_token(m) != src@,
            },
    {
        if bytes_eq(src, Method::Get.to_bytes().as_slice()) {
            return Ok(Method::Get);
        }
        if bytes_eq(src, Method::Head.to_bytes().as_slice()) {
            return Ok(Method::Head);
        }
        if bytes_eq(src, Method::Post.to_bytes().as_slice()) {
            return Ok(Method::Post);
        }
        if bytes_eq(src, Method::Put.to_bytes().as_slice()) {
            return Ok(Method::Put);
        }
        if bytes_eq(src, Method::Delete.to_bytes().as_slice()) {
            return Ok(Method::Delete);
        }
        if bytes_eq(src, Method::Connect.to_bytes().as_slice()) {
            return Ok(Method::Connect);
        }
        if bytes_eq(src, Method::Options.to_bytes().as_slice()) {
            return Ok(Method::Options);
        }
        if bytes_eq(src, Method::Trace.to_bytes().as_slice()) {
            return Ok(Method::Trace);
        }
        Err(StatusCode::NOT_IMPLEMENTED)
    }
}

/// Every method's token reads back as that method, and no other.
pub proof fn lemma_method_round_trip(m: Method)
    ensures
        spec_method(method_token(m)) == Some(m),
        forall|k: Method| method_token(k) == method_token(m) ==> k == m,
{
    assert forall|k: Method| method_token(k) == method_token(m) implies k == m by {
        if k != m {
            lemma_tokens_differ(k, m);
        }
    }
}

/// Distinct methods have distinct tokens.
proof fn lemma_tokens_differ(a: Method, b: Method)
    requires
        a != b,
    ensures
        method_token(a) != method_token(b),
{
    let ta = method_token(a);
    let tb = method_token(b);
    if ta.len() == tb.len() {
        assert(ta[0] != tb[0] || ta[1] != tb[1] || ta[2] != tb[2]);
    }
}

} // verus!
