//! Byte classes and scanners for the ABNF rules shared by the URI and header grammars
//! (RFC 3986, RFC 5234, RFC 7230).
use vstd::prelude::*;

verus! {

/// `ALPHA = %x41-5A / %x61-7A`
pub open spec fn alpha(b: u8) -> bool {
    ('A' as u8 <= b <= 'Z' as u8) || ('a' as u8 <= b <= 'z' as u8)
}

/// `DIGIT = %x30-39`
pub open spec fn digit(b: u8) -> bool {
    '0' as u8 <= b <= '9' as u8
}

/// `unreserved = ALPHA / DIGIT / "-" / "." / "_" / "~"`
pub open spec fn unreserved(b: u8) -> bool {
    alpha(b) || digit(b) || b == '-' as u8 || b == '.' as u8 || b == '_' as u8 || b == '~' as u8
}

/// `sub-delims = "!" / "$" / "&" / "'" / "(" / ")" / "*" / "+" / "," / ";" / "="`
pub open spec fn sub_delim(b: u8) -> bool {
    b == '!' as u8 || b == '$' as u8 || b == '&' as u8 || b == '\'' as u8 || b == '(' as u8
        || b == ')' as u8 || b == '*' as u8 || b == '+' as u8 || b == ',' as u8 || b == ';' as u8
        || b == '=' as u8
}

/// `HEXDIG = DIGIT / "A" / "B" / "C" / "D" / "E" / "F"`: upper case letters only.
pub open spec fn hex_digit(b: u8) -> bool {
    digit(b) || ('A' as u8 <= b <= 'F' as u8)
}

/// The value of a `HEXDIG`.
pub open spec fn hex_value(b: u8) -> nat {
    if digit(b) {
        (b - '0' as u8) as nat
    } else {
        (b - 'A' as u8 + 10) as nat
    }
}

/// The value of a run of `HEXDIG`s, most significant first.
pub open spec fn hex_number(s: Seq<u8>) -> nat
    decreases s.len(),
{
    if s.len() == 0 {
        0
    } else {
        hex_number(s.drop_last()) * 16 + hex_value(s.last())
    }
}

/// The number of `HEXDIG`s that start `s`, counting at most `max` of them.
pub open spec fn hex_run_len(s: Seq<u8>, max: nat) -> nat
    decreases max,
{
    if max == 0 || s.len() == 0 || !hex_digit(s[0]) {
        0
    } else {
        1 + hex_run_len(s.drop_first(), (max - 1) as nat)
    }
}

/// `tchar` of RFC 7230: the characters of a header field name.
pub open spec fn tchar(b: u8) -> bool {
    alpha(b) || digit(b) || b == '!' as u8 || b == '#' as u8 || b == '$' as u8 || b == '%' as u8
        || b == '&' as u8 || b == '\'' as u8 || b == '*' as u8 || b == '+' as u8 || b == '-' as u8
        || b == '.' as u8 || b == '^' as u8 || b == '_' as u8 || b == '`' as u8 || b == '|' as u8
        || b == '~' as u8
}

pub fn is_unreserved(byte: u8) -> (r: bool)
    ensures
        r == unreserved(byte),
{
    ('A' as u8 <= byte && byte <= 'Z' as u8) || ('a' as u8 <= byte && byte <= 'z' as u8) || (
    '0' as u8 <= byte && byte <= '9' as u8) || byte == '-' as u8 || byte == '.' as u8 || byte
        == '_' as u8 || byte == '~' as u8
}

pub fn is_sub_delims(byte: u8) -> (r: bool)
    ensures
        r == sub_delim(byte),
{
    byte == '!' as u8 || byte == '$' as u8 || byte == '&' as u8 || byte == '\'' as u8 || byte
        == '(' as u8 || byte == ')' as u8 || byte == '*' as u8 || byte == '+' as u8 || byte
        == ',' as u8 || byte == ';' as u8 || byte == '=' as u8
}

pub fn is_hex_dig(byte: u8) -> (r: bool)
    ensures
        r == hex_digit(byte),
{
    ('0' as u8 <= byte && byte <= '9' as u8) || ('A' as u8 <= byte && byte <= 'F' as u8)
}

pub fn is_tchar(byte: u8) -> (r: bool)
    ensures
        r == tchar(byte),
{
    ('A' as u8 <= byte && byte <= 'Z' as u8) || ('a' as u8 <= byte && byte <= 'z' as u8) || (
    '0' as u8 <= byte && byte <= '9' as u8) || byte == '!' as u8 || byte == '#' as u8 || byte
        == '$' as u8 || byte == '%' as u8 || byte == '&' as u8 || byte == '\'' as u8 || byte
        == '*' as u8 || byte == '+' as u8 || byte == '-' as u8 || byte == '.' as u8 || byte
        == '^' as u8 || byte == '_' as u8 || byte == '`' as u8 || byte == '|' as u8 || byte
        == '~' as u8
}

/// The value of a single `HEXDIG`, or `None` for any other byte (lower case letters included).
pub fn parse_hex_dig(byte: u8) -> (r: Option<u8>)
    ensures
        r == (if hex_digit(byte) {
            Some(hex_value(byte) as u8)
        } else {
            None::<u8>
        }),
{
    if 'A' as u8 <= byte && byte <= 'F' as u8 {
        Some(byte - ('A' as u8 - 10))
    } else if '0' as u8 <= byte && byte <= '9' as u8 {
        Some(byte - '0' as u8)
    } else {
        None
    }
}

/// Appending a digit multiplies by sixteen and adds its value.
pub proof fn lemma_hex_number_push(s: Seq<u8>, b: u8)
    ensures
        hex_number(s.push(b)) == hex_number(s) * 16 + hex_value(b),
{
    assert(s.push(b).drop_last() =~= s);
}

/// Reads up to `max` leading `HEXDIG`s: their count and their value.
fn scan_hex(src: &[u8], max: usize) -> (r: (u32, usize))
    requires
        max <= 4,
    ensures
        r.1 == hex_run_len(src@, max as nat),
        r.0 == hex_number(src@.take(r.1 as int)),
        r.1 <= max,
        r.1 <= src@.len(),
        r.0 < pow16(r.1 as nat),
        r.0 < 65536,
{
    let mut value: u32 = 0;
    let mut i: usize = 0;
    assert(src@.skip(0) =~= src@);
    while i < max && i < src.len() && is_hex_dig(src[i])
        invariant
            i <= max <= 4,
            i <= src@.len(),
            value == hex_number(src@.take(i as int)),
            forall|j: int| 0 <= j < i ==> hex_digit(#[trigger] src@[j]),
            hex_run_len(src@, max as nat) == i + hex_run_len(src@.skip(i as int), (max - i) as nat),
        decreases max - i,
    {
        let d = parse_hex_dig(src[i]).unwrap();
        proof {
            lemma_hex_number_bound(src@.take(i as int));
            lemma_pow16_small(i as nat);
            lemma_hex_number_push(src@.take(i as int), src@[i as int]);
            assert(src@.take(i as int).push(src@[i as int]) =~= src@.take(i + 1));
            assert(src@.skip(i as int).drop_first() =~= src@.skip(i + 1));
        }
        value = value * 16 + d as u32;
        i = i + 1;
    }
    proof {
        assert(hex_run_len(src@.skip(i as int), (max - i) as nat) == 0);
        lemma_hex_number_bound(src@.take(i as int));
        lemma_pow16_small(i as nat);
    }
    (value, i)
}

/// Reads up to two leading `HEXDIG`s (the nibbles of a `u8`) and hands back their value with
/// the bytes that follow them; `None` when `src` does not start with a `HEXDIG`.
pub fn parse_hex_u8(src: &[u8]) -> (r: Option<(u8, &[u8])>)
    ensures
        match r {
            None => hex_run_len(src@, 2) == 0,
            Some((v, rest)) => {
                let n = hex_run_len(src@, 2) as int;
                &&& n > 0
                &&& v == hex_number(src@.take(n))
                &&& rest@ == src@.skip(n)
            },
        },
{
    let (value, n) = scan_hex(src, 2);
    if n == 0 {
        None
    } else {
        proof {
            lemma_pow16_small(n as nat);
        }
        Some((value as u8, vstd::slice::slice_subrange(src, n, src.len())))
    }
}

/// Reads up to four leading `HEXDIG`s (the nibbles of a `u16`) and hands back their value with
/// the bytes that follow them; `None` when `src` does not start with a `HEXDIG`.
pub fn parse_hex_u16(src: &[u8]) -> (r: Option<(u16, &[u8])>)
    ensures
        match r {
            None => hex_run_len(src@, 4) == 0,
            Some((v, rest)) => {
                let n = hex_run_len(src@, 4) as int;
                &&& n > 0
                &&& v == hex_number(src@.take(n))
                &&& rest@ == src@.skip(n)
            },
        },
{
    let (value, n) = scan_hex(src, 4);
    if n == 0 {
        None
    } else {
        Some((value as u16, vstd::slice::slice_subrange(src, n, src.len())))
    }
}

/// `16^n`
pub open spec fn pow16(n: nat) -> nat
    decreases n,
{
    if n == 0 {
        1
    } else {
        16 * pow16((n - 1) as nat)
    }
}

/// A run of `n` `HEXDIG`s is worth less than `16^n`.
pub proof fn lemma_hex_number_bound(s: Seq<u8>)
    requires
        forall|i: int| 0 <= i < s.len() ==> hex_digit(#[trigger] s[i]),
    ensures
        hex_number(s) < pow16(s.len()),
    decreases s.len(),
{
    if s.len() > 0 {
        lemma_hex_number_bound(s.drop_last());
        assert(hex_digit(s[s.len() - 1]));
        assert(hex_value(s.last()) < 16);
    }
}

/// The powers of sixteen that bound the `HEXDIG` runs read here.
proof fn lemma_pow16_small(n: nat)
    requires
        n <= 4,
    ensures
        n <= 2 ==> pow16(n) <= 256,
        n <= 3 ==> pow16(n) <= 4096,
        pow16(n) <= 65536,
{
    assert(pow16(0) == 1);
    assert(pow16(1) == 16);
    assert(pow16(2) == 256);
    assert(pow16(3) == 4096);
    assert(pow16(4) == 65536);
}

/// Which bytes a percent-encoded run takes besides `pct-encoded` triplets.
#[derive(Clone, Copy, Debug, PartialEq, Eq, Structural)]
pub enum PctClass {
    /// `reg-name = *( unreserved / pct-encoded / sub-delims )`
    RegName,
    /// `userinfo = *( unreserved / pct-encoded / sub-delims / ":" )`
    UserInfo,
    /// `pchar = unreserved / pct-encoded / sub-delims / ":" / "@"`
    PChar,
    /// `pchar` and the `"/"` that separates path segments
    PathSegments,
    /// `query = fragment = *( pchar / "/" / "?" )`
    QueryOrFragment,
}

/// The bytes, other than `%`, that a run of class `c` takes as they are.
pub open spec fn class_allows(c: PctClass, b: u8) -> bool {
    let base = unreserved(b) || sub_delim(b);
    let pchar = base || b == ':' as u8 || b == '@' as u8;
    match c {
        PctClass::RegName => base,
        PctClass::UserInfo => base || b == ':' as u8,
        PctClass::PChar => pchar,
        PctClass::PathSegments => pchar || b == '/' as u8,
        PctClass::QueryOrFragment => pchar || b == '/' as u8 || b == '?' as u8,
    }
}

pub fn class_accepts(c: PctClass, b: u8) -> (r: bool)
    ensures
        r == class_allows(c, b),
{
    let base = is_unreserved(b) || is_sub_delims(b);
    let pchar = base || b == ':' as u8 || b == '@' as u8;
    match c {
        PctClass::RegName => base,
        PctClass::UserInfo => base || b == ':' as u8,
        PctClass::PChar => pchar,
        PctClass::PathSegments => pchar || b == '/' as u8,
        PctClass::QueryOrFragment => pchar || b == '/' as u8 || b == '?' as u8,
    }
}

/// Scans `s` from index `i`: where the longest run of class `c` that starts there ends, or
/// `None` when a `%` in it is not followed by two `HEXDIG`s.
pub open spec fn pct_run_from(s: Seq<u8>, i: int, c: PctClass) -> Option<int>
    decreases s.len() - i,
{
    if i < 0 || i >= s.len() {
        Some(s.len() as int)
    } else if s[i] == '%' as u8 {
        if i + 2 < s.len() && hex_digit(s[i + 1]) && hex_digit(s[i + 2]) {
            pct_run_from(s, i + 3, c)
        } else {
            None
        }
    } else if class_allows(c, s[i]) {
        pct_run_from(s, i + 1, c)
    } else {
        Some(i)
    }
}

/// The length of the longest run of class `c` that starts `s`; `None` where that run would end
/// inside a `pct-encoded` triplet.
pub open spec fn pct_run(s: Seq<u8>, c: PctClass) -> Option<int> {
    pct_run_from(s, 0, c)
}

/// A run ends within `s`, and not before where it starts.
pub proof fn lemma_pct_run_bounds(s: Seq<u8>, i: int, c: PctClass)
    requires
        0 <= i,
    ensures
        pct_run_from(s, i, c) matches Some(n) ==> n <= s.len() && (i <= s.len() ==> i <= n),
    decreases s.len() - i,
{
    if i < s.len() {
        if s[i] == '%' as u8 {
            if i + 2 < s.len() && hex_digit(s[i + 1]) && hex_digit(s[i + 2]) {
                lemma_pct_run_bounds(s, i + 3, c);
            }
        } else if class_allows(c, s[i]) {
            lemma_pct_run_bounds(s, i + 1, c);
        }
    }
}

/// `s` is, whole, a run of class `c`.
pub open spec fn pct_whole(s: Seq<u8>, c: PctClass) -> bool {
    pct_run(s, c) == Some(s.len() as int)
}

/// Copies the longest prefix of `src` made of bytes of class `class` and well-formed `%XX`
/// triplets (upper case `HEXDIG`s); `None` where the scan stops inside a triplet.
pub fn parse_pct_encoded_ext(src: &[u8], class: PctClass) -> (r: Option<Vec<u8>>)
    ensures
        match pct_run(src@, class) {
            None => r is None,
            Some(n) => r is Some && r->0@ == src@.take(n),
        },
{
    let mut out: Vec<u8> = Vec::new();
    let mut i: usize = 0;
    while i < src.len()
        invariant
            i <= src@.len(),
            pct_run(src@, class) == pct_run_from(src@, i as int, class),
            out@ == src@.take(i as int),
        decreases src@.len() - i,
    {
        let b = src[i];
        if b == '%' as u8 {
            if src.len() - i > 2 && is_hex_dig(src[i + 1]) && is_hex_dig(src[i + 2]) {
                out.push(b);
                out.push(src[i + 1]);
                out.push(src[i + 2]);
                assert(out@ =~= src@.take(i + 3));
                i = i + 3;
            } else {
                return None;
            }
        } else if class_accepts(class, b) {
            out.push(b);
            assert(out@ =~= src@.take(i + 1));
            i = i + 1;
        } else {
            assert(out@ =~= src@.take(i as int));
            return Some(out);
        }
    }
    assert(out@ =~= src@.take(src@.len() as int));
    Some(out)
}

/// A `reg-name` that starts `src`; `None` where it ends inside a `pct-encoded` triplet.
pub fn parse_reg_name(src: &[u8]) -> (r: Option<Vec<u8>>)
    ensures
        match pct_run(src@, PctClass::RegName) {
            None => r is None,
            Some(n) => r is Some && r->0@ == src@.take(n),
        },
{
    parse_pct_encoded_ext(src, PctClass::RegName)
}

/// Whether the whole of `src` is a run of class `class`.
pub fn is_pct_whole(src: &[u8], class: PctClass) -> (r: bool)
    ensures
        r == pct_whole(src@, class),
{
    proof {
        lemma_pct_run_bounds(src@, 0, class);
    }
    match parse_pct_encoded_ext(src, class) {
        Some(v) => v.len() == src.len(),
        None => false,
    }
}

} // verus!
