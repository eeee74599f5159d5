//! The protocol version of RFC 7230 section 2.6.
use vstd::prelude::*;

use crate::abnf::digit;
use crate::status_code::StatusCode;

verus! {

/// An HTTP protocol version: `HTTP-version = "HTTP/" DIGIT "." DIGIT`.
#[derive(Clone, Copy, Debug, PartialEq, Eq, Structural)]
pub struct Version {
    major: u8,
    minor: u8,
}

/// The bytes `HTTP/`.
pub open spec fn http_name() -> Seq<u8> {
    seq!['H' as u8, 'T' as u8, 'T' as u8, 'P' as u8, '/' as u8]
}

/// The text of version `major.minor`, both single digits.
pub open spec fn version_token(major: u8, minor: u8) -> Seq<u8> {
    http_name() + seq![(major + '0' as u8) as u8, '.' as u8, (minor + '0' as u8) as u8]
}

/// The digits of the version that `s` spells, if it spells one.
pub open spec fn spec_version(s: Seq<u8>) -> Option<(u8, u8)> {
    if s.len() == 8 && s.take(5) == http_name() && digit(s[5]) && s[6] == '.' as u8 && digit(
        s[7],
    ) {
        Some(((s[5] - '0' as u8) as u8, (s[7] - '0' as u8) as u8))
    } else {
        None
    }
}

impl View for Version {
    type V = (u8, u8);

    closed spec fn view(&self) -> (u8, u8) {
        (self.major, self.minor)
    }
}

impl Version {
    /// Reads `HTTP/` followed by a digit, `.` and a digit; anything else is
    /// [`StatusCode::BAD_REQUEST`].
    pub fn from_bytes(src: &[u8]) -> (r: Result<Version, StatusCode>)
        ensures
            match r {
                Ok(v) => spec_version(src@) == Some(v@),
                Err(e) => e == StatusCode::BAD_REQUEST && spec_version(src@) is None,
            },
    {
        if src.len() == 8 && src[0] == 'H' as u8 && src[1] == 'T' as u8 && src[2] == 'T' as u8
            && src[3] == 'P' as u8 && src[4] == '/' as u8 && '0' as u8 <= src[5] && src[5]
            <= '9' as u8 && src[6] == '.' as u8 && '0' as u8 <= src[7] && src[7] <= '9' as u8 {
            assert(src@.take(5) =~= http_name());
            Ok(Version { major: src[5] - '0' as u8, minor: src[7] - '0' as u8 })
        } else {
            assert(src@.len() == 8 && src@.take(5) == http_name() ==> src@[0] == 'H' as u8
                && src@[1] == 'T' as u8 && src@[2] == 'T' as u8 && src@[3] == 'P' as u8
                && src@[4] == '/' as u8) by {
                if src@.len() == 8 && src@.take(5) == http_name() {
                    assert(src@[0] == src@.take(5)[0]);
                    assert(src@[1] == src@.take(5)[1]);
                    assert(src@[2] == src@.take(5)[2]);
                    assert(src@[3] == src@.take(5)[3]);
                    assert(src@[4] == src@.take(5)[4]);
                }
            }
            Err(StatusCode::BAD_REQUEST)
        }
    }

    /// The major version number.
    pub fn major(&self) -> (r: u8)
        ensures
            r == self@.0,
    {
        self.major
    }

    /// The minor version number.
    pub fn minor(&self) -> (r: u8)
        ensures
            r == self@.1,
    {
        self.minor
    }
}

/// A version read from bytes is two single digits, and spelling it out again gives back
/// those bytes.
pub proof fn lemma_version_round_trip(s: Seq<u8>)
    requires
        spec_version(s) is Some,
    ensures
        spec_version(s) matches Some((a, b)) && a < 10 && b < 10 && version_token(a, b) == s,
{
    let (a, b) = spec_version(s).unwrap();
    assert(version_token(a, b) =~= s) by {
        assert forall|i: int| 0 <= i < 5 implies version_token(a, b)[i] == s[i] by {
            assert(s[i] == s.take(5)[i]);
        }
    }
}

} // verus!
