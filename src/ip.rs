//! IPv4 and IPv6 addresses in text form: dotted decimal (four octets of one to three digits,
//! no leading zero) and eight 16-bit groups of one to four hexadecimal digits of either case,
//! where one `::` stands for one or more zero groups and the last two groups may be written as
//! a dotted-decimal IPv4 address.
use vstd::prelude::*;

use crate::abnf::digit;

verus! {

/// A digit in base 10 or, for any other `radix`, in base 16 (either case).
pub open spec fn radix_digit(b: u8, radix: nat) -> bool {
    if radix == 10 {
        digit(b)
    } else {
        digit(b) || ('a' as u8 <= b <= 'f' as u8) || ('A' as u8 <= b <= 'F' as u8)
    }
}

/// The value of a decimal or hexadecimal digit.
pub open spec fn radix_value(b: u8) -> nat {
    if digit(b) {
        (b - '0' as u8) as nat
    } else if 'a' as u8 <= b <= 'f' as u8 {
        (b - 'a' as u8 + 10) as nat
    } else {
        (b - 'A' as u8 + 10) as nat
    }
}

/// The number of digits in `s` from index `i` on.
pub open spec fn radix_run(s: Seq<u8>, i: int, radix: nat) -> nat
    decreases s.len() - i,
{
    if 0 <= i < s.len() && radix_digit(s[i], radix) {
        1 + radix_run(s, i + 1, radix)
    } else {
        0
    }
}

/// The value of a run of digits, most significant first.
pub open spec fn radix_number(s: Seq<u8>, radix: nat) -> nat
    decreases s.len(),
{
    if s.len() == 0 {
        0
    } else {
        radix_number(s.drop_last(), radix) * radix + radix_value(s.last())
    }
}

/// A number of one to `max_digits` digits at index `i`, its value and where it ends. A longer
/// run of digits is no number; nor, unless `zero_prefix`, is a run of two or more digits that
/// starts with `0`.
pub open spec fn read_number(s: Seq<u8>, i: int, radix: nat, max_digits: nat, zero_prefix: bool) -> Option<(nat, int)> {
    let n = radix_run(s, i, radix) as int;
    if n == 0 || n > max_digits || (!zero_prefix && n > 1 && s[i] == '0' as u8) {
        None
    } else {
        Some((radix_number(s.subrange(i, i + n), radix), i + n))
    }
}

/// A decimal octet at index `i`: one to three digits without a leading zero, at most 255.
pub open spec fn read_octet(s: Seq<u8>, i: int) -> Option<(u8, int)> {
    match read_number(s, i, 10, 3, false) {
        Some((v, e)) => if v <= 255 {
            Some((v as u8, e))
        } else {
            None
        },
        None => None,
    }
}

/// A `.` at index `i` followed by a decimal octet.
pub open spec fn read_dot_octet(s: Seq<u8>, i: int) -> Option<(u8, int)> {
    if 0 <= i < s.len() && s[i] == '.' as u8 {
        read_octet(s, i + 1)
    } else {
        None
    }
}

/// A dotted-decimal IPv4 address at index `i`, its octets and where it ends.
pub open spec fn read_ipv4(s: Seq<u8>, i: int) -> Option<((u8, u8, u8, u8), int)> {
    match read_octet(s, i) {
        Some((a, i1)) => match read_dot_octet(s, i1) {
            Some((b, i2)) => match read_dot_octet(s, i2) {
                Some((c, i3)) => match read_dot_octet(s, i3) {
                    Some((d, i4)) => Some(((a, b, c, d), i4)),
                    None => None,
                },
                None => None,
            },
            None => None,
        },
        None => None,
    }
}

/// The octets of the IPv4 address that the whole of `s` spells.
pub open spec fn spec_ipv4(s: Seq<u8>) -> Option<(u8, u8, u8, u8)> {
    match read_ipv4(s, 0) {
        Some((a, e)) => if e == s.len() {
            Some(a)
        } else {
            None
        },
        None => None,
    }
}

/// The group separator that precedes every group but the first.
pub open spec fn read_sep(s: Seq<u8>, i: int, k: nat) -> Option<int> {
    if k == 0 {
        Some(i)
    } else if 0 <= i < s.len() && s[i] == ':' as u8 {
        Some(i + 1)
    } else {
        None
    }
}

/// The two 16-bit groups that hold an IPv4 address.
pub open spec fn ipv4_groups(a: (u8, u8, u8, u8)) -> Seq<u16> {
    seq![(a.0 as nat * 256 + a.1 as nat) as u16, (a.2 as nat * 256 + a.3 as nat) as u16]
}

/// Reads groups `k` to `limit - 1` of an IPv6 address from index `i`: the groups read, where
/// the reading stopped, and whether the last two were an IPv4 address (which ends the groups).
pub open spec fn read_groups(s: Seq<u8>, i: int, k: nat, limit: nat) -> (Seq<u16>, int, bool)
    decreases limit - k,
{
    if k >= limit {
        (seq![], i, false)
    } else {
        match read_sep(s, i, k) {
            None => (seq![], i, false),
            Some(j) => if k + 1 < limit && read_ipv4(s, j) is Some {
                let (a, e) = read_ipv4(s, j).unwrap();
                (ipv4_groups(a), e, true)
            } else {
                match read_number(s, j, 16, 4, true) {
                    None => (seq![], i, false),
                    Some((g, e)) => {
                        let rest = read_groups(s, e, k + 1, limit);
                        (seq![g as u16] + rest.0, rest.1, rest.2)
                    },
                }
            },
        }
    }
}

/// The eight groups of the IPv6 address that the whole of `s` spells.
pub open spec fn spec_ipv6(s: Seq<u8>) -> Option<Seq<u16>> {
    let (head, p, head_v4) = read_groups(s, 0, 0, 8);
    if head.len() == 8 {
        if p == s.len() {
            Some(head)
        } else {
            None
        }
    } else if head_v4 {
        None
    } else if 0 <= p && p + 1 < s.len() && s[p] == ':' as u8 && s[p + 1] == ':' as u8 {
        let (tail, q, tail_v4) = read_groups(s, p + 2, 0, (7 - head.len()) as nat);
        if q == s.len() {
            Some(head + Seq::new((8 - head.len() - tail.len()) as nat, |j: int| 0u16) + tail)
        } else {
            None
        }
    } else {
        None
    }
}

/// `radix^n`
pub open spec fn pow_nat(radix: nat, n: nat) -> nat
    decreases n,
{
    if n == 0 {
        1
    } else {
        radix * pow_nat(radix, (n - 1) as nat)
    }
}

fn is_radix_digit(b: u8, radix: u32) -> (r: bool)
    ensures
        r == radix_digit(b, radix as nat),
{
    if radix == 10 {
        '0' as u8 <= b && b <= '9' as u8
    } else {
        ('0' as u8 <= b && b <= '9' as u8) || ('a' as u8 <= b && b <= 'f' as u8) || ('A' as u8 <= b
            && b <= 'F' as u8)
    }
}

fn radix_digit_value(b: u8) -> (r: u32)
    requires
        radix_digit(b, 16),
    ensures
        r == radix_value(b),
        r < 16,
{
    if '0' as u8 <= b && b <= '9' as u8 {
        (b - '0' as u8) as u32
    } else if 'a' as u8 <= b && b <= 'f' as u8 {
        (b - 'a' as u8 + 10) as u32
    } else {
        (b - 'A' as u8 + 10) as u32
    }
}

proof fn lemma_radix_number_step(s: Seq<u8>, i: int, n: int, radix: nat)
    requires
        0 <= i <= i + n < s.len(),
    ensures
        radix_number(s.subrange(i, i + n + 1), radix) == radix_number(s.subrange(i, i + n), radix)
            * radix + radix_value(s[i + n]),
{
    assert(s.subrange(i, i + n + 1).drop_last() =~= s.subrange(i, i + n));
}

/// Reads a number at index `i` as [`read_number`] states it, for radix 10 or 16 and at most
/// four digits.
fn read_number_at(src: &[u8], i: usize, radix: u32, max_digits: usize, zero_prefix: bool) -> (r: Option<(u32, usize)>)
    requires
        i <= src@.len(),
        radix == 10 || radix == 16,
        1 <= max_digits <= 4,
    ensures
        match r {
            Some((v, e)) => read_number(src@, i as int, radix as nat, max_digits as nat, zero_prefix)
                == Some((v as nat, e as int)) && e <= src@.len() && v < 65536,
            None => read_number(src@, i as int, radix as nat, max_digits as nat, zero_prefix) is None,
        },
{
    let mut n: usize = 0;
    let mut v: u32 = 0;
    while n <= max_digits && n < src.len() - i && is_radix_digit(src[i + n], radix)
        invariant
            i <= src@.len(),
            radix == 10 || radix == 16,
            1 <= max_digits <= 4,
            n <= max_digits + 1,
            n <= src@.len() - i,
            radix_run(src@, i as int, radix as nat) == n + radix_run(src@, (i + n) as int, radix as nat),
            n <= max_digits ==> v == radix_number(src@.subrange(i as int, (i + n) as int), radix as nat),
            n <= max_digits ==> v < pow_nat(radix as nat, n as nat),
            forall|j: int| i <= j < i + n ==> radix_digit(#[trigger] src@[j], radix as nat),
        decreases max_digits + 1 - n,
    {
        let d = radix_digit_value(src[i + n]);
        if n < max_digits {
            proof {
                lemma_radix_number_step(src@, i as int, n as int, radix as nat);
                lemma_pow_small(radix as nat, n as nat);
                let p = pow_nat(radix as nat, n as nat);
                assert(radix == 10 ==> d < 10);
                assert(v * radix + d < p * radix) by (nonlinear_arith)
                    requires
                        v < p,
                        d < radix,
                ;
            }
            v = v * radix + d;
        }
        n = n + 1;
    }
    proof {
        if n <= max_digits {
            assert(radix_run(src@, (i + n) as int, radix as nat) == 0);
            lemma_pow_small(radix as nat, n as nat);
        }
    }
    if n == 0 || n > max_digits {
        return None;
    }
    if !zero_prefix && n > 1 && src[i] == '0' as u8 {
        return None;
    }
    Some((v, i + n))
}

/// Bounds of the powers used here.
proof fn lemma_pow_small(radix: nat, n: nat)
    requires
        radix == 10 || radix == 16,
        n <= 4,
    ensures
        pow_nat(radix, n) <= 65536,
        pow_nat(radix, n) > 0,
{
    assert(pow_nat(radix, 0) == 1);
    assert(pow_nat(radix, 1) == radix);
    assert(pow_nat(radix, 2) == radix * radix);
    assert(pow_nat(radix, 3) == radix * radix * radix);
    assert(pow_nat(radix, 4) == radix * radix * radix * radix);
}

fn read_octet_at(src: &[u8], i: usize) -> (r: Option<(u8, usize)>)
    requires
        i <= src@.len(),
    ensures
        match r {
            Some((v, e)) => read_octet(src@, i as int) == Some((v, e as int)) && e <= src@.len(),
            None => read_octet(src@, i as int) is None,
        },
{
    match read_number_at(src, i, 10, 3, false) {
        Some((v, e)) => if v <= 255 {
            Some((v as u8, e))
        } else {
            None
        },
        None => None,
    }
}

fn read_dot_octet_at(src: &[u8], i: usize) -> (r: Option<(u8, usize)>)
    requires
        i <= src@.len(),
    ensures
        match r {
            Some((v, e)) => read_dot_octet(src@, i as int) == Some((v, e as int)) && e <= src@.len(),
            None => read_dot_octet(src@, i as int) is None,
        },
{
    if i < src.len() && src[i] == '.' as u8 {
        read_octet_at(src, i + 1)
    } else {
        None
    }
}

fn read_ipv4_at(src: &[u8], i: usize) -> (r: Option<((u8, u8, u8, u8), usize)>)
    requires
        i <= src@.len(),
    ensures
        match r {
            Some((a, e)) => read_ipv4(src@, i as int) == Some((a, e as int)) && e <= src@.len(),
            None => read_ipv4(src@, i as int) is None,
        },
{
    let (a, i1) = match read_octet_at(src, i) {
        Some(x) => x,
        None => return None,
    };
    let (b, i2) = match read_dot_octet_at(src, i1) {
        Some(x) => x,
        None => return None,
    };
    let (c, i3) = match read_dot_octet_at(src, i2) {
        Some(x) => x,
        None => return None,
    };
    let (d, i4) = match read_dot_octet_at(src, i3) {
        Some(x) => x,
        None => return None,
    };
    Some(((a, b, c, d), i4))
}

/// The octets of the dotted-decimal IPv4 address that the whole of `src` spells.
pub fn parse_ipv4(src: &[u8]) -> (r: Option<(u8, u8, u8, u8)>)
    ensures
        r == spec_ipv4(src@),
{
    match read_ipv4_at(src, 0) {
        Some((a, e)) => if e == src.len() {
            Some(a)
        } else {
            None
        },
        None => None,
    }
}

/// The groups read from index `start` on, as [`read_groups`] states them from group 0.
fn read_groups_at(src: &[u8], start: usize, limit: usize) -> (r: (Vec<u16>, usize, bool))
    requires
        start <= src@.len(),
        limit <= 8,
    ensures
        read_groups(src@, start as int, 0, limit as nat) == (r.0@, r.1 as int, r.2),
        r.1 <= src@.len(),
{
    let mut groups: Vec<u16> = Vec::new();
    let mut i: usize = start;
    let mut k: usize = 0;
    while k < limit
        invariant
            k <= limit <= 8,
            i <= src@.len(),
            ({
                let rest = read_groups(src@, i as int, k as nat, limit as nat);
                read_groups(src@, start as int, 0, limit as nat) == (groups@ + rest.0, rest.1, rest.2)
            }),
        decreases limit - k,
    {
        let j = if k == 0 {
            i
        } else if i < src.len() && src[i] == ':' as u8 {
            i + 1
        } else {
            assert(groups@ + seq![] =~= groups@);
            return (groups, i, false);
        };
        if k + 1 < limit {
            if let Some((a, e)) = read_ipv4_at(src, j) {
                let hi = (a.0 as u16) * 256 + a.1 as u16;
                let lo = (a.2 as u16) * 256 + a.3 as u16;
                let ghost before = groups@;
                groups.push(hi);
                groups.push(lo);
                assert(groups@ =~= before + ipv4_groups(a));
                return (groups, e, true);
            }
        }
        match read_number_at(src, j, 16, 4, true) {
            None => {
                assert(groups@ + seq![] =~= groups@);
                return (groups, i, false);
            },
            Some((g, e)) => {
                let ghost before = groups@;
                let ghost rest = read_groups(src@, e as int, (k + 1) as nat, limit as nat);
                groups.push(g as u16);
                assert(before + (seq![g as u16] + rest.0) =~= groups@ + rest.0);
                i = e;
                k = k + 1;
            },
        }
    }
    assert(groups@ + seq![] =~= groups@);
    (groups, i, false)
}

/// `read_groups` reads no more groups than it has room for.
proof fn lemma_read_groups_len(s: Seq<u8>, i: int, k: nat, limit: nat)
    requires
        k <= limit,
    ensures
        read_groups(s, i, k, limit).0.len() <= limit - k,
    decreases limit - k,
{
    if k < limit {
        match read_sep(s, i, k) {
            None => {},
            Some(j) => if k + 1 < limit && read_ipv4(s, j) is Some {
            } else {
                match read_number(s, j, 16, 4, true) {
                    None => {},
                    Some((g, e)) => lemma_read_groups_len(s, e, k + 1, limit),
                }
            },
        }
    }
}

/// The eight groups of the IPv6 address that the whole of `src` spells.
pub fn parse_ipv6(src: &[u8]) -> (r: Option<Vec<u16>>)
    ensures
        match r {
            Some(g) => spec_ipv6(src@) == Some(g@) && g@.len() == 8,
            None => spec_ipv6(src@) is None,
        },
{
    let (head, p, head_v4) = read_groups_at(src, 0, 8);
    proof {
        lemma_read_groups_len(src@, 0, 0, 8);
    }
    if head.len() == 8 {
        if p == src.len() {
            return Some(head);
        } else {
            return None;
        }
    }
    if head_v4 {
        return None;
    }
    if !(src.len() > 1 && p < src.len() - 1 && src[p] == ':' as u8 && src[p + 1] == ':' as u8) {
        return None;
    }
    let limit = 7 - head.len();
    let (tail, q, _) = read_groups_at(src, p + 2, limit);
    proof {
        lemma_read_groups_len(src@, (p + 2) as int, 0, limit as nat);
    }
    if q != src.len() {
        return None;
    }
    let mut groups = head;
    let zeros = 8 - groups.len() - tail.len();
    let ghost h = groups@;
    let mut z: usize = 0;
    while z < zeros
        invariant
            z <= zeros,
            groups@ == h + Seq::new(z as nat, |j: int| 0u16),
        decreases zeros - z,
    {
        groups.push(0);
        assert(groups@ =~= h + Seq::new((z + 1) as nat, |j: int| 0u16));
        z = z + 1;
    }
    let mut t: usize = 0;
    let ghost hz = groups@;
    while t < tail.len()
        invariant
            t <= tail@.len(),
            groups@ == hz + tail@.take(t as int),
        decreases tail@.len() - t,
    {
        groups.push(tail[t]);
        assert(groups@ =~= hz + tail@.take(t + 1));
        t = t + 1;
    }
    assert(tail@.take(tail@.len() as int) =~= tail@);
    Some(groups)
}

} // verus!
