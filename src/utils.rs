//! Splitting byte slices at delimiters.
use vstd::prelude::*;

verus! {

/// The index of the first byte of `s` that `delims` holds, or `s.len()` when there is none.
pub open spec fn find_any(s: Seq<u8>, delims: Seq<u8>) -> int
    decreases s.len(),
{
    if s.len() == 0 {
        0
    } else if delims.contains(s[0]) {
        0
    } else {
        1 + find_any(s.drop_first(), delims)
    }
}

/// `s` split at its first `byte`, which neither half keeps; `None` where `s` holds no `byte`.
pub open spec fn split_first(s: Seq<u8>, byte: u8) -> Option<(Seq<u8>, Seq<u8>)> {
    let i = find_any(s, seq![byte]);
    if i < s.len() {
        Some((s.take(i), s.skip(i + 1)))
    } else {
        None
    }
}

/// `find_any` is the index of the first delimiter.
pub proof fn lemma_find_any(s: Seq<u8>, delims: Seq<u8>, i: int)
    requires
        0 <= i <= s.len(),
        forall|j: int| 0 <= j < i ==> !delims.contains(#[trigger] s[j]),
        i == s.len() || delims.contains(s[i]),
    ensures
        find_any(s, delims) == i,
    decreases s.len(),
{
    if s.len() > 0 && i > 0 {
        assert(!delims.contains(s[0]));
        assert forall|j: int| 0 <= j < i - 1 implies !delims.contains(#[trigger] s.drop_first()[j]) by {
            assert(s.drop_first()[j] == s[j + 1]);
        }
        lemma_find_any(s.drop_first(), delims, i - 1);
    }
}

/// `find_any` is an index of `s`, or its length.
pub proof fn lemma_find_any_bounds(s: Seq<u8>, delims: Seq<u8>)
    ensures
        0 <= find_any(s, delims) <= s.len(),
    decreases s.len(),
{
    if s.len() > 0 {
        lemma_find_any_bounds(s.drop_first(), delims);
    }
}

/// `s` is `a`, one `byte`, then `b`, when `split_first` cuts it there.
pub proof fn lemma_split_first_joins(s: Seq<u8>, byte: u8)
    requires
        split_first(s, byte) is Some,
    ensures
        split_first(s, byte) matches Some((a, b)) && s == a + seq![byte] + b,
{
    lemma_find_any_bounds(s, seq![byte]);
    let i = find_any(s, seq![byte]);
    lemma_first_delimiter(s, seq![byte]);
    assert(seq![byte].contains(s[i]) ==> s[i] == byte);
    assert(s =~= s.take(i) + seq![byte] + s.skip(i + 1));
}

/// Where `find_any` stops short of the end, it stops on a delimiter.
pub proof fn lemma_first_delimiter(s: Seq<u8>, delims: Seq<u8>)
    ensures
        find_any(s, delims) < s.len() ==> delims.contains(
            s[find_any(s, delims)],
        ),
    decreases s.len(),
{
    if s.len() > 0 && !delims.contains(s[0]) {
        lemma_first_delimiter(s.drop_first(), delims);
        lemma_find_any_bounds(s.drop_first(), delims);
    }
}

/// The index of the first byte of `src` that `delims` holds, or `src.len()`.
pub fn position_of_any(src: &[u8], delims: &[u8]) -> (r: usize)
    ensures
        r == find_any(src@, delims@),
        r <= src@.len(),
{
    let mut i: usize = 0;
    while i < src.len()
        invariant
            i <= src@.len(),
            forall|j: int| 0 <= j < i ==> !delims@.contains(#[trigger] src@[j]),
        decreases src@.len() - i,
    {
        let b = src[i];
        let mut k: usize = 0;
        while k < delims.len()
            invariant
                k <= delims@.len(),
                i < src@.len(),
                b == src@[i as int],
                forall|j: int| 0 <= j < i ==> !delims@.contains(#[trigger] src@[j]),
                forall|m: int| 0 <= m < k ==> delims@[m] != b,
            decreases delims@.len() - k,
        {
            if delims[k] == b {
                proof {
                    lemma_find_any(src@, delims@, i as int);
                }
                return i;
            }
            k = k + 1;
        }
        assert(!delims@.contains(b));
        i = i + 1;
    }
    proof {
        lemma_find_any(src@, delims@, i as int);
    }
    i
}

/// Divides `src` at the first occurrence of `byte`; neither part keeps it. `None` where `src`
/// holds no `byte`.
pub fn split_at_next(src: &[u8], byte: u8) -> (r: Option<(&[u8], &[u8])>)
    ensures
        match r {
            None => split_first(src@, byte) is None,
            Some((left, right)) => split_first(src@, byte) == Some((left@, right@)),
        },
{
    let d = [byte];
    let i = position_of_any(src, d.as_slice());
    assert(d@ =~= seq![byte]);
    if i < src.len() {
        Some((vstd::slice::slice_subrange(src, 0, i), vstd::slice::slice_subrange(src, i + 1, src.len())))
    } else {
        None
    }
}

/// [`split_at_next`] at the space byte.
pub fn split_at_next_space(src: &[u8]) -> (r: Option<(&[u8], &[u8])>)
    ensures
        match r {
            None => split_first(src@, ' ' as u8) is None,
            Some((left, right)) => split_first(src@, ' ' as u8) == Some((left@, right@)),
        },
{
    split_at_next(src, ' ' as u8)
}

/// Returns whether `a` and `b` hold the same bytes.
pub fn bytes_eq(a: &[u8], b: &[u8]) -> (r: bool)
    ensures
        r == (a@ == b@),
{
    if a.len() != b.len() {
        return false;
    }
    let mut i: usize = 0;
    while i < a.len()
        invariant
            i <= a@.len(),
            a@.len() == b@.len(),
            forall|j: int| 0 <= j < i ==> a@[j] == b@[j],
        decreases a@.len() - i,
    {
        if a[i] != b[i] {
            return false;
        }
        i = i + 1;
    }
    assert(a@ =~= b@);
    true
}

} // verus!
