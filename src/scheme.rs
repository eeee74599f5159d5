//! The scheme of a URI (RFC 3986 section 3.1).
use vstd::prelude::*;

use crate::abnf::{alpha, digit};
use crate::status_code::StatusCode;

verus! {

/// `scheme = ALPHA *( ALPHA / DIGIT / "+" / "-" / "." )`, kept in lower case; it may be empty.
#[derive(Debug, PartialEq)]
pub struct Scheme {
    text: Vec<u8>,
}

/// A byte that may follow the first letter of a scheme.
pub open spec fn scheme_char(b: u8) -> bool {
    alpha(b) || digit(b) || b == '+' as u8 || b == '-' as u8 || b == '.' as u8
}

/// The lower case form of an ASCII byte; other bytes stay as they are.
pub open spec fn lower(b: u8) -> u8 {
    if 'A' as u8 <= b <= 'Z' as u8 {
        (b + 32) as u8
    } else {
        b
    }
}

/// `s` with every ASCII letter in lower case.
pub open spec fn lower_all(s: Seq<u8>) -> Seq<u8> {
    s.map_values(|b: u8| lower(b))
}

/// The scheme that `s` spells, in lower case: empty for empty input.
pub open spec fn spec_scheme(s: Seq<u8>) -> Option<Seq<u8>> {
    if s.len() == 0 {
        Some(s)
    } else if alpha(s[0]) && forall|i: int| 1 <= i < s.len() ==> scheme_char(#[trigger] s[i]) {
        Some(lower_all(s))
    } else {
        None
    }
}

pub fn to_lower(b: u8) -> (r: u8)
    ensures
        r == lower(b),
{
    if 'A' as u8 <= b && b <= 'Z' as u8 {
        b + 32
    } else {
        b
    }
}

impl View for Scheme {
    type V = Seq<u8>;

    closed spec fn view(&self) -> Seq<u8> {
        self.text@
    }
}

impl Default for Scheme {
    fn default() -> (r: Scheme)
        ensures
            r@ == Seq::<u8>::empty(),
    {
        Scheme { text: Vec::new() }
    }
}

impl Scheme {
    /// Reads a scheme and puts it in lower case. Empty input is the empty scheme; otherwise the
    /// first byte must be a letter and the others letters, digits, `+`, `-` or `.`, or the
    /// result is [`StatusCode::BAD_REQUEST`].
    pub fn from_bytes(src: &[u8]) -> (r: Result<Scheme, StatusCode>)
        ensures
            match r {
                Ok(s) => spec_scheme(src@) == Some(s@),
                Err(e) => e == StatusCode::BAD_REQUEST && spec_scheme(src@) is None,
            },
    {
        let mut text: Vec<u8> = Vec::new();
        if src.len() == 0 {
            assert(text@ =~= src@);
            return Ok(Scheme { text });
        }
        let first = src[0];
        if !(('A' as u8 <= first && first <= 'Z' as u8) || ('a' as u8 <= first && first
            <= 'z' as u8)) {
            return Err(StatusCode::BAD_REQUEST);
        }
        text.push(to_lower(first));
        let mut i: usize = 1;
        while i < src.len()
            invariant
                1 <= i <= src@.len(),
                alpha(src@[0]),
                forall|j: int| 1 <= j < i ==> scheme_char(#[trigger] src@[j]),
                text@ =~= lower_all(src@.take(i as int)),
            decreases src@.len() - i,
        {
            let b = src[i];
            if !(('A' as u8 <= b && b <= 'Z' as u8) || ('a' as u8 <= b && b <= 'z' as u8) || (
            '0' as u8 <= b && b <= '9' as u8) || b == '+' as u8 || b == '-' as u8 || b
                == '.' as u8) {
                return Err(StatusCode::BAD_REQUEST);
            }
            text.push(to_lower(b));
            i = i + 1;
        }
        assert(src@.take(src@.len() as int) =~= src@);
        Ok(Scheme { text })
    }

    /// Returns true if the scheme is empty.
    pub fn is_empty(&self) -> (r: bool)
        ensures
            r == (self@.len() == 0),
    {
        self.text.len() == 0
    }

    /// The scheme's bytes, in lower case.
    pub fn as_bytes(&self) -> (r: &[u8])
        ensures
            r@ == self@,
    {
        self.text.as_slice()
    }
}

/// A scheme read from bytes is in lower case.
pub proof fn lemma_scheme_lower(s: Seq<u8>)
    ensures
        spec_scheme(s) matches Some(t) ==> forall|i: int|
            0 <= i < t.len() ==> lower(#[trigger] t[i]) == t[i],
{
    if spec_scheme(s) is Some && s.len() > 0 {
        let t = lower_all(s);
        assert forall|i: int| 0 <= i < t.len() implies lower(#[trigger] t[i]) == t[i] by {
            assert(t[i] == lower(s[i]));
        }
    }
}

} // verus!
