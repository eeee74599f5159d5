//! The path of a URI (RFC 3986 section 3.3).
use vstd::prelude::*;

use crate::abnf::{class_accepts, hex_digit, is_hex_dig, pct_run, pct_run_from, pct_whole, PctClass};
use crate::status_code::StatusCode;

verus! {

/// A URI path, with each run of consecutive `/` folded into one.
///
/// ```text
/// path          = path-abempty / path-absolute / path-noscheme / path-rootless / path-empty
/// path-abempty  = *( "/" segment )
/// path-absolute = "/" [ segment-nz *( "/" segment ) ]
/// path-rootless = segment-nz *( "/" segment )
/// segment       = *pchar
/// segment-nz    = 1*pchar
/// ```
#[derive(Debug, PartialEq)]
pub struct Path {
    text: Vec<u8>,
}

/// `s` with every run of consecutive `/` replaced by a single `/`.
pub open spec fn fold_slashes(s: Seq<u8>) -> Seq<u8>
    decreases s.len(),
{
    if s.len() == 0 {
        s
    } else {
        let f = fold_slashes(s.drop_last());
        if s.last() == '/' as u8 && f.len() > 0 && f.last() == '/' as u8 {
            f
        } else {
            f.push(s.last())
        }
    }
}

/// The path that `s` spells: the empty path, `/`, or segments of `pchar`s between `/`s whose
/// first segment is not empty, with doubled slashes folded.
pub open spec fn spec_path(s: Seq<u8>) -> Option<Seq<u8>> {
    if s.len() == 0 {
        Some(s)
    } else if !pct_whole(s, PctClass::PathSegments) {
        None
    } else if s.len() > 1 && s[0] == '/' as u8 && s[1] == '/' as u8 {
        None
    } else {
        Some(fold_slashes(s))
    }
}

proof fn lemma_fold_step(s: Seq<u8>, i: int)
    requires
        0 <= i < s.len(),
    ensures
        fold_slashes(s.take(i + 1)) == (if s[i] == '/' as u8 && fold_slashes(s.take(i)).len() > 0
            && fold_slashes(s.take(i)).last() == '/' as u8 {
            fold_slashes(s.take(i))
        } else {
            fold_slashes(s.take(i)).push(s[i])
        }),
{
    assert(s.take(i + 1).drop_last() =~= s.take(i));
}

/// Folding keeps the first byte.
pub proof fn lemma_fold_first(s: Seq<u8>)
    requires
        s.len() > 0,
    ensures
        fold_slashes(s).len() > 0,
        fold_slashes(s)[0] == s[0],
    decreases s.len(),
{
    if s.len() > 1 {
        lemma_fold_first(s.drop_last());
        assert(s.drop_last()[0] == s[0]);
        let f = fold_slashes(s.drop_last());
        assert(f.push(s.last())[0] == f[0]);
        assert(fold_slashes(s) == f || fold_slashes(s) == f.push(s.last()));
    } else {
        assert(s.drop_last() =~= Seq::<u8>::empty());
        assert(fold_slashes(s.drop_last()) =~= Seq::<u8>::empty());
        assert(fold_slashes(s) == Seq::<u8>::empty().push(s.last()));
    }
}

impl View for Path {
    type V = Seq<u8>;

    closed spec fn view(&self) -> Seq<u8> {
        self.text@
    }
}

impl Default for Path {
    fn default() -> (r: Path)
        ensures
            r@ == Seq::<u8>::empty(),
    {
        Path { text: Vec::new() }
    }
}

impl Path {
    /// Reads a path in one pass, folding doubled slashes. A byte that is neither a `pchar` nor
    /// `/`, a broken `%XX`, or an empty first segment after a leading `/` is
    /// [`StatusCode::BAD_REQUEST`].
    pub fn from_bytes(src: &[u8]) -> (r: Result<Path, StatusCode>)
        ensures
            match r {
                Ok(p) => spec_path(src@) == Some(p@),
                Err(e) => e == StatusCode::BAD_REQUEST && spec_path(src@) is None,
            },
    {
        let mut text: Vec<u8> = Vec::new();
        if src.len() == 0 {
            assert(text@ =~= src@);
            return Ok(Path { text });
        }
        let slash = '/' as u8;
        let double = src.len() > 1 && src[0] == slash && src[1] == slash;
        let mut i: usize = 0;
        assert(src@.take(0) =~= Seq::<u8>::empty());
        while i < src.len()
            invariant
                i <= src@.len(),
                slash == '/' as u8,
                pct_run(src@, PctClass::PathSegments) == pct_run_from(
                    src@,
                    i as int,
                    PctClass::PathSegments,
                ),
                text@ == fold_slashes(src@.take(i as int)),
            decreases src@.len() - i,
        {
            let b = src[i];
            if b == '%' as u8 {
                if src.len() - i > 2 && is_hex_dig(src[i + 1]) && is_hex_dig(src[i + 2]) {
                    proof {
                        lemma_fold_step(src@, i as int);
                        lemma_fold_step(src@, i + 1);
                        lemma_fold_step(src@, i + 2);
                        assert(hex_digit(src@[i + 1]) && hex_digit(src@[i + 2]));
                    }
                    text.push(b);
                    text.push(src[i + 1]);
                    text.push(src[i + 2]);
                    i = i + 3;
                } else {
                    return Err(StatusCode::BAD_REQUEST);
                }
            } else if class_accepts(PctClass::PathSegments, b) {
                proof {
                    lemma_fold_step(src@, i as int);
                }
                let n = text.len();
                if !(b == slash && n > 0 && text[n - 1] == slash) {
                    text.push(b);
                }
                i = i + 1;
            } else {
                return Err(StatusCode::BAD_REQUEST);
            }
        }
        assert(src@.take(src@.len() as int) =~= src@);
        if double {
            return Err(StatusCode::BAD_REQUEST);
        }
        Ok(Path { text })
    }

    /// Returns true if the path is empty.
    pub fn is_empty(&self) -> (r: bool)
        ensures
            r == (self@.len() == 0),
    {
        self.text.len() == 0
    }

    /// The path's bytes.
    pub fn as_bytes(&self) -> (r: &[u8])
        ensures
            r@ == self@,
    {
        self.text.as_slice()
    }
}

} // verus!
