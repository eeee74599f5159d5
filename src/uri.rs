//! Uniform Resource Identifiers (RFC 3986, as used by RFC 7230 section 2.7).
use vstd::prelude::*;

use crate::authority::{spec_authority, Authority, AuthorityView};
use crate::path::{spec_path, Path};
use crate::query::{spec_query, Fragment, Query};
use crate::scheme::{spec_scheme, Scheme};
use crate::status_code::StatusCode;
use crate::utils::{find_any, position_of_any, split_at_next, split_first};

verus! {

/// A URI split into its five parts.
///
/// ```text
/// URI       = scheme ":" hier-part [ "?" query ] [ "#" fragment ]
/// hier-part = "//" authority path-abempty
///           / path-absolute
///           / path-rootless
///           / path-empty
/// ```
#[derive(Debug, PartialEq)]
pub struct Uri {
    scheme: Scheme,
    authority: Option<Authority>,
    path: Path,
    query: Query,
    fragment: Fragment,
}

/// What a [`Uri`] holds. An absent query or fragment is empty.
pub struct UriView {
    pub scheme: Seq<u8>,
    pub authority: Option<AuthorityView>,
    pub path: Seq<u8>,
    pub query: Seq<u8>,
    pub fragment: Seq<u8>,
}

impl View for Uri {
    type V = UriView;

    closed spec fn view(&self) -> UriView {
        UriView {
            scheme: self.scheme@,
            authority: match self.authority {
                Some(a) => Some(a@),
                None => None,
            },
            path: self.path@,
            query: self.query@,
            fragment: self.fragment@,
        }
    }
}

/// The bytes `/`, `?` and `#` that end an authority.
pub open spec fn authority_ends() -> Seq<u8> {
    seq!['/' as u8, '?' as u8, '#' as u8]
}

/// The bytes `?` and `#` that end a path.
pub open spec fn path_ends() -> Seq<u8> {
    seq!['?' as u8, '#' as u8]
}

/// The scheme's bytes (those before the first `:`, or none) and the rest.
pub open spec fn split_scheme(s: Seq<u8>) -> (Seq<u8>, Seq<u8>) {
    match split_first(s, ':' as u8) {
        Some((a, b)) => (a, b),
        None => (Seq::empty(), s),
    }
}

/// After a `//`, the authority's bytes (up to the first `/`, `?` or `#`) and the rest; with no
/// `//`, no authority. `None` where nothing ends the authority.
pub open spec fn split_authority(rest: Seq<u8>) -> Option<(Option<Seq<u8>>, Seq<u8>)> {
    if rest.len() >= 2 && rest[0] == '/' as u8 && rest[1] == '/' as u8 {
        let after = rest.skip(2);
        let i = find_any(after, authority_ends());
        if i < after.len() {
            Some((Some(after.take(i)), after.skip(i)))
        } else {
            None
        }
    } else {
        Some((None, rest))
    }
}

/// The query's and the fragment's bytes in what follows the path: after a `?`, the query runs
/// to the first `#`; after a `#`, all the rest is the fragment.
pub open spec fn split_query_fragment(tail: Seq<u8>) -> (Seq<u8>, Seq<u8>) {
    if tail.len() == 0 {
        (Seq::empty(), Seq::empty())
    } else if tail[0] == '?' as u8 {
        match split_first(tail.skip(1), '#' as u8) {
            Some((q, f)) => (q, f),
            None => (tail.skip(1), Seq::empty()),
        }
    } else {
        (Seq::empty(), tail.skip(1))
    }
}

/// The URI that `s` spells, each part read by its own grammar; the empty input is no URI.
pub open spec fn spec_uri(s: Seq<u8>) -> Option<UriView> {
    let (scheme_bytes, rest) = split_scheme(s);
    if s.len() == 0 {
        None
    } else {
        match (spec_scheme(scheme_bytes), split_authority(rest)) {
            (Some(scheme), Some((authority_bytes, rest))) => {
                let authority = match authority_bytes {
                    Some(a) => match spec_authority(a) {
                        Some(v) => Some(Some(v)),
                        None => None,
                    },
                    None => Some(None),
                };
                let j = find_any(rest, path_ends());
                let (q, f) = split_query_fragment(rest.skip(j));
                match (authority, spec_path(rest.take(j)), spec_query(q), spec_query(f)) {
                    (Some(authority), Some(path), Some(query), Some(fragment)) => Some(
                        UriView { scheme, authority, path, query, fragment },
                    ),
                    _ => None,
                }
            },
            _ => None,
        }
    }
}

/// Behind an authority the path is empty or starts with `/`.
pub proof fn lemma_authority_path(s: Seq<u8>)
    requires
        spec_uri(s) matches Some(u) && u.authority is Some,
    ensures
        spec_uri(s) matches Some(u) && (u.path.len() == 0 || u.path[0] == '/' as u8),
{
    let rest0 = split_scheme(s).1;
    assert(split_authority(rest0) matches Some((Some(a), r)));
    assert(rest0.len() >= 2 && rest0[0] == '/' as u8 && rest0[1] == '/' as u8);
    let after = rest0.skip(2);
    let i = find_any(after, authority_ends());
    crate::utils::lemma_find_any_bounds(after, authority_ends());
    assert(i < after.len());
    crate::utils::lemma_first_delimiter(after, authority_ends());
    let rest = after.skip(i);
    let j = find_any(rest, path_ends());
    crate::utils::lemma_find_any_bounds(rest, path_ends());
    let b = rest[0];
    assert(b == after[i]);
    assert(authority_ends().contains(b));
    if j > 0 {
        lemma_before_first(rest, path_ends());
        assert(!path_ends().contains(rest[0]));
        assert(b == '/' as u8) by {
            if b != '/' as u8 {
                assert(b == '?' as u8 || b == '#' as u8);
                assert(path_ends()[0] == '?' as u8 && path_ends()[1] == '#' as u8);
                assert(path_ends().contains(b));
            }
        }
        let p = rest.take(j);
        assert(p[0] == '/' as u8);
        crate::path::lemma_fold_first(p);
    }
}

/// No delimiter comes before the first one.
proof fn lemma_before_first(s: Seq<u8>, delims: Seq<u8>)
    ensures
        forall|k: int| 0 <= k < find_any(s, delims) ==> !delims.contains(#[trigger] s[k]),
    decreases s.len(),
{
    if s.len() > 0 && !delims.contains(s[0]) {
        lemma_before_first(s.drop_first(), delims);
        crate::utils::lemma_find_any_bounds(s.drop_first(), delims);
        assert forall|k: int| 0 <= k < find_any(s, delims) implies !delims.contains(#[trigger] s[k]) by {
            if k > 0 {
                assert(s[k] == s.drop_first()[k - 1]);
            }
        }
    }
}

impl Uri {
    /// Reads a URI: the scheme before the first `:`, an authority after `//` that a `/`, `?` or
    /// `#` must end, the path up to the first `?` or `#`, then the query and the fragment. The
    /// empty input, an unterminated authority, and any part that its own parser rejects are
    /// [`StatusCode::BAD_REQUEST`].
    #[verifier::rlimit(30)]
    pub fn from_bytes(src: &[u8]) -> (r: Result<Uri, StatusCode>)
        ensures
            match r {
                Ok(u) => spec_uri(src@) == Some(u@),
                Err(e) => e == StatusCode::BAD_REQUEST && spec_uri(src@) is None,
            },
    {
        if src.len() == 0 {
            return Err(StatusCode::BAD_REQUEST);
        }
        let (scheme_bytes, rest) = match split_at_next(src, ':' as u8) {
            Some((a, b)) => (a, b),
            None => (vstd::slice::slice_subrange(src, 0, 0), src),
        };
        assert(scheme_bytes@ =~= split_scheme(src@).0);
        let scheme = match Scheme::from_bytes(scheme_bytes) {
            Ok(s) => s,
            Err(e) => return Err(e),
        };
        let slash = '/' as u8;
        let (authority, rest) = if rest.len() >= 2 && rest[0] == slash && rest[1] == slash {
            let after = vstd::slice::slice_subrange(rest, 2, rest.len());
            let ends = ['/' as u8, '?' as u8, '#' as u8];
            assert(ends@ =~= authority_ends());
            let i = position_of_any(after, ends.as_slice());
            if i == after.len() {
                return Err(StatusCode::BAD_REQUEST);
            }
            let a = match Authority::from_bytes(vstd::slice::slice_subrange(after, 0, i)) {
                Ok(a) => a,
                Err(e) => return Err(e),
            };
            (Some(a), vstd::slice::slice_subrange(after, i, after.len()))
        } else {
            (None, rest)
        };
        let ends = ['?' as u8, '#' as u8];
        assert(ends@ =~= path_ends());
        let j = position_of_any(rest, ends.as_slice());
        let path = match Path::from_bytes(vstd::slice::slice_subrange(rest, 0, j)) {
            Ok(p) => p,
            Err(e) => return Err(e),
        };
        let tail = vstd::slice::slice_subrange(rest, j, rest.len());
        let empty = vstd::slice::slice_subrange(tail, 0, 0);
        let (q, f) = if tail.len() == 0 {
            (empty, empty)
        } else if tail[0] == '?' as u8 {
            let t = vstd::slice::slice_subrange(tail, 1, tail.len());
            match split_at_next(t, '#' as u8) {
                Some((q, f)) => (q, f),
                None => (t, empty),
            }
        } else {
            (empty, vstd::slice::slice_subrange(tail, 1, tail.len()))
        };
        assert(q@ =~= split_query_fragment(tail@).0);
        assert(f@ =~= split_query_fragment(tail@).1);
        let query = match Query::from_bytes(q) {
            Ok(q) => q,
            Err(e) => return Err(e),
        };
        let fragment = match Fragment::from_bytes(f) {
            Ok(f) => f,
            Err(e) => return Err(e),
        };
        Ok(Uri { scheme, authority, path, query, fragment })
    }

    /// The scheme, in lower case; empty where none was written.
    pub fn scheme(&self) -> (r: &Scheme)
        ensures
            r@ == self@.scheme,
    {
        &self.scheme
    }

    /// The authority, if one was written.
    pub fn authority(&self) -> (r: &Option<Authority>)
        ensures
            match r {
                Some(a) => self@.authority == Some(a@),
                None => self@.authority is None,
            },
    {
        &self.authority
    }

    /// The path.
    pub fn path(&self) -> (r: &Path)
        ensures
            r@ == self@.path,
    {
        &self.path
    }

    /// The query; empty where none was written.
    pub fn query(&self) -> (r: &Query)
        ensures
            r@ == self@.query,
    {
        &self.query
    }

    /// The fragment; empty where none was written.
    pub fn fragment(&self) -> (r: &Fragment)
        ensures
            r@ == self@.fragment,
    {
        &self.fragment
    }
}

} // verus!
