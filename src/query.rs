//! The query and fragment of a URI (RFC 3986 sections 3.4 and 3.5).
use vstd::prelude::*;

use crate::abnf::{is_pct_whole, pct_whole, PctClass};
use crate::status_code::StatusCode;

verus! {

/// The query or fragment that `s` spells: `s` itself where the whole of it is made of `pchar`,
/// `/`, `?` and well-formed `%XX`.
pub open spec fn spec_query(s: Seq<u8>) -> Option<Seq<u8>> {
    if pct_whole(s, PctClass::QueryOrFragment) {
        Some(s)
    } else {
        None
    }
}

/// The fragment of a URI.
///
/// ```text
/// fragment = *( pchar / "/" / "?" )
/// ```
#[derive(Debug, PartialEq)]
pub struct Fragment {
    text: Vec<u8>,
}

impl View for Fragment {
    type V = Seq<u8>;

    closed spec fn view(&self) -> Seq<u8> {
        self.text@
    }
}

impl Default for Fragment {
    fn default() -> (r: Fragment)
        ensures
            r@ == Seq::<u8>::empty(),
    {
        Fragment { text: Vec::new() }
    }
}

impl Fragment {
    /// Reads a fragment; a byte outside its grammar, or a broken `%XX`, is
    /// [`StatusCode::BAD_REQUEST`].
    pub fn from_bytes(src: &[u8]) -> (r: Result<Fragment, StatusCode>)
        ensures
            match r {
                Ok(f) => spec_query(src@) == Some(f@),
                Err(e) => e == StatusCode::BAD_REQUEST && spec_query(src@) is None,
            },
    {
        if is_pct_whole(src, PctClass::QueryOrFragment) {
            Ok(Fragment { text: vstd::slice::slice_to_vec(src) })
        } else {
            Err(StatusCode::BAD_REQUEST)
        }
    }

    /// Returns true if the fragment is empty.
    pub fn is_empty(&self) -> (r: bool)
        ensures
            r == (self@.len() == 0),
    {
        self.len() == 0
    }

    /// The number of bytes in the fragment.
    pub fn len(&self) -> (r: usize)
        ensures
            r == self@.len(),
    {
        self.text.len()
    }

    /// The fragment's bytes.
    pub fn as_bytes(&self) -> (r: &[u8])
        ensures
            r@ == self@,
    {
        self.text.as_slice()
    }
}

/// The query of a URI.
///
/// ```text
/// query = *( pchar / "/" / "?" )
/// ```
#[derive(Debug, PartialEq)]
pub struct Query {
    text: Vec<u8>,
}

impl View for Query {
    type V = Seq<u8>;

    closed spec fn view(&self) -> Seq<u8> {
        self.text@
    }
}

impl Default for Query {
    fn default() -> (r: Query)
        ensures
            r@ == Seq::<u8>::empty(),
    {
        Query { text: Vec::new() }
    }
}

impl Query {
    /// Reads a query; a byte outside its grammar, or a broken `%XX`, is
    /// [`StatusCode::BAD_REQUEST`].
    pub fn from_bytes(src: &[u8]) -> (r: Result<Query, StatusCode>)
        ensures
            match r {
                Ok(q) => spec_query(src@) == Some(q@),
                Err(e) => e == StatusCode::BAD_REQUEST && spec_query(src@) is None,
            },
    {
        if is_pct_whole(src, PctClass::QueryOrFragment) {
            Ok(Query { text: vstd::slice::slice_to_vec(src) })
        } else {
            Err(StatusCode::BAD_REQUEST)
        }
    }

    /// The query's bytes.
    pub fn as_bytes(&self) -> (r: &[u8])
        ensures
            r@ == self@,
    {
        self.text.as_slice()
    }
}

} // verus!
