//! The authority of a URI (RFC 3986 section 3.2): user information, host and port.
use vstd::prelude::*;

use crate::abnf::{
    hex_number, hex_run_len, is_pct_whole, is_sub_delims, is_unreserved, parse_hex_u16, pct_whole,
    sub_delim, unreserved, PctClass,
};
use crate::ip::{parse_ipv4, parse_ipv6, radix_number, spec_ipv4, spec_ipv6};
use crate::status_code::StatusCode;
use crate::utils::{split_at_next, split_first};

verus! {

/// An IPv4 address as four octets, or an IPv6 address as eight 16-bit groups.
#[derive(Clone, Copy, Debug, PartialEq, Eq, Structural, Hash)]
pub enum IpAddress {
    V4(u8, u8, u8, u8),
    V6(u16, u16, u16, u16, u16, u16, u16, u16),
}

/// The address that `s` spells: dotted-decimal IPv4 first, else IPv6 groups.
pub open spec fn spec_ip_addr(s: Seq<u8>) -> Option<IpAddress> {
    if spec_ipv4(s) is Some {
        let (a, b, c, d) = spec_ipv4(s).unwrap();
        Some(IpAddress::V4(a, b, c, d))
    } else if spec_ipv6(s) is Some {
        Some(ipv6_of(spec_ipv6(s).unwrap()))
    } else {
        None
    }
}

impl IpAddress {
    /// Reads an IPv4 address in dotted-decimal form, or else an IPv6 address (without
    /// brackets).
    pub fn from_bytes(src: &[u8]) -> (r: Option<IpAddress>)
        ensures
            r == spec_ip_addr(src@),
    {
        if let Some((a, b, c, d)) = parse_ipv4(src) {
            return Some(IpAddress::V4(a, b, c, d));
        }
        match parse_ipv6(src) {
            Some(g) => Some(IpAddress::V6(g[0], g[1], g[2], g[3], g[4], g[5], g[6], g[7])),
            None => None,
        }
    }
}

/// The host of an authority.
///
/// ```text
/// host       = IP-literal / IPv4address / reg-name
/// IP-literal = "[" ( IPv6address / IPvFuture ) "]"
/// IPvFuture  = "v" 1*HEXDIG "." 1*( unreserved / sub-delims / ":" )
/// reg-name   = *( unreserved / pct-encoded / sub-delims )
/// ```
#[derive(Debug, PartialEq)]
pub enum Host {
    /// An IPv4 address, or an IPv6 address written between brackets.
    IpvN(IpAddress),
    /// An `IPvFuture` literal: its version and the text after the `.`.
    IpvFuture(u16, Vec<u8>),
    /// A registered name, as written.
    Domain(Vec<u8>),
}

/// What a [`Host`] holds, with its bytes as sequences.
pub enum HostView {
    IpvN(IpAddress),
    IpvFuture(u16, Seq<u8>),
    Domain(Seq<u8>),
}

impl View for Host {
    type V = HostView;

    open spec fn view(&self) -> HostView {
        match self {
            Host::IpvN(a) => HostView::IpvN(*a),
            Host::IpvFuture(v, name) => HostView::IpvFuture(*v, name@),
            Host::Domain(d) => HostView::Domain(d@),
        }
    }
}

/// A byte of the text of an `IPvFuture`: `unreserved / sub-delims / ":"`.
pub open spec fn future_char(b: u8) -> bool {
    unreserved(b) || sub_delim(b) || b == ':' as u8
}

/// The version and text of the `"[" IPvFuture "]"` that the whole of `s` spells.
pub open spec fn spec_ipv_future(s: Seq<u8>) -> Option<(u16, Seq<u8>)> {
    if s.len() >= 3 && s[0] == '[' as u8 && s[1] == 'v' as u8 && s.last() == ']' as u8 {
        let inner = s.subrange(2, s.len() - 1);
        let n = hex_run_len(inner, 4) as int;
        let after = inner.skip(n);
        let name = after.skip(1);
        if n > 0 && after.len() > 1 && after[0] == '.' as u8 && forall|i: int|
            0 <= i < name.len() ==> future_char(#[trigger] name[i]) {
            Some((hex_number(inner.take(n)) as u16, name))
        } else {
            None
        }
    } else {
        None
    }
}

/// The IPv6 address with groups `g`.
pub open spec fn ipv6_of(g: Seq<u16>) -> IpAddress {
    IpAddress::V6(g[0], g[1], g[2], g[3], g[4], g[5], g[6], g[7])
}

/// The host that the whole of `s` spells. An `[v` opens an `IPvFuture`; other brackets hold an
/// IPv6 address; otherwise an IPv4 address is tried before a registered name.
pub open spec fn spec_host(s: Seq<u8>) -> Option<HostView> {
    if s.len() == 0 {
        None
    } else if s.len() >= 2 && s[0] == '[' as u8 && s[1] == 'v' as u8 {
        match spec_ipv_future(s) {
            Some((v, name)) => Some(HostView::IpvFuture(v, name)),
            None => None,
        }
    } else if s.len() >= 2 && s[0] == '[' as u8 && s.last() == ']' as u8 {
        match spec_ipv6(s.subrange(1, s.len() - 1)) {
            Some(g) => Some(HostView::IpvN(ipv6_of(g))),
            None => None,
        }
    } else if spec_ipv4(s) is Some {
        let (a, b, c, d) = spec_ipv4(s).unwrap();
        Some(HostView::IpvN(IpAddress::V4(a, b, c, d)))
    } else if pct_whole(s, PctClass::RegName) {
        Some(HostView::Domain(s))
    } else {
        None
    }
}

/// Reads the `"[" IPvFuture "]"` that the whole of `src` should be: its version (one to four
/// `HEXDIG`s) and its text. Anything else is [`StatusCode::BAD_REQUEST`].
pub fn ipv_future_from_bytes(src: &[u8]) -> (r: Result<(u16, Vec<u8>), StatusCode>)
    ensures
        match r {
            Ok((v, name)) => spec_ipv_future(src@) == Some((v, name@)),
            Err(e) => e == StatusCode::BAD_REQUEST && spec_ipv_future(src@) is None,
        },
{
    let len = src.len();
    if !(len >= 3 && src[0] == '[' as u8 && src[1] == 'v' as u8 && src[len - 1] == ']' as u8) {
        return Err(StatusCode::BAD_REQUEST);
    }
    let inner = vstd::slice::slice_subrange(src, 2, len - 1);
    let (version, after) = match parse_hex_u16(inner) {
        Some(x) => x,
        None => return Err(StatusCode::BAD_REQUEST),
    };
    if !(after.len() > 1 && after[0] == '.' as u8) {
        return Err(StatusCode::BAD_REQUEST);
    }
    let name = vstd::slice::slice_subrange(after, 1, after.len());
    assert(after@.skip(1) =~= name@);
    let ghost all_future = forall|j: int| 0 <= j < name@.len() ==> future_char(#[trigger] name@[j]);
    assert(spec_ipv_future(src@) == (if all_future {
        Some((version, name@))
    } else {
        None
    }));
    let mut i: usize = 0;
    while i < name.len()
        invariant
            i <= name@.len(),
            spec_ipv_future(src@) == (if all_future {
                Some((version, name@))
            } else {
                None
            }),
            all_future == forall|j: int| 0 <= j < name@.len() ==> future_char(#[trigger] name@[j]),
            forall|j: int| 0 <= j < i ==> future_char(#[trigger] name@[j]),
        decreases name@.len() - i,
    {
        let b = name[i];
        if !(is_unreserved(b) || is_sub_delims(b) || b == ':' as u8) {
            return Err(StatusCode::BAD_REQUEST);
        }
        i = i + 1;
    }
    Ok((version, vstd::slice::slice_to_vec(name)))
}

impl Host {
    /// Reads a host: an `IPvFuture` or IPv6 literal between brackets, an IPv4 address, or else
    /// a registered name. Anything else, the empty input included, is
    /// [`StatusCode::BAD_REQUEST`].
    pub fn from_bytes(src: &[u8]) -> (r: Result<Host, StatusCode>)
        ensures
            match r {
                Ok(h) => spec_host(src@) == Some(h@),
                Err(e) => e == StatusCode::BAD_REQUEST && spec_host(src@) is None,
            },
    {
        let len = src.len();
        if len == 0 {
            return Err(StatusCode::BAD_REQUEST);
        }
        if len >= 2 && src[0] == '[' as u8 && src[1] == 'v' as u8 {
            return match ipv_future_from_bytes(src) {
                Ok((v, name)) => Ok(Host::IpvFuture(v, name)),
                Err(e) => Err(e),
            };
        }
        if len >= 2 && src[0] == '[' as u8 && src[len - 1] == ']' as u8 {
            return match parse_ipv6(vstd::slice::slice_subrange(src, 1, len - 1)) {
                Some(g) => Ok(
                    Host::IpvN(IpAddress::V6(g[0], g[1], g[2], g[3], g[4], g[5], g[6], g[7])),
                ),
                None => Err(StatusCode::BAD_REQUEST),
            };
        }
        if let Some((a, b, c, d)) = parse_ipv4(src) {
            return Ok(Host::IpvN(IpAddress::V4(a, b, c, d)));
        }
        if is_pct_whole(src, PctClass::RegName) {
            Ok(Host::Domain(vstd::slice::slice_to_vec(src)))
        } else {
            Err(StatusCode::BAD_REQUEST)
        }
    }
}

/// The user information of an authority, as written.
///
/// ```text
/// userinfo = *( unreserved / pct-encoded / sub-delims / ":" )
/// ```
#[derive(Debug, PartialEq)]
pub struct UserInfo {
    text: Vec<u8>,
}

impl View for UserInfo {
    type V = Seq<u8>;

    closed spec fn view(&self) -> Seq<u8> {
        self.text@
    }
}

/// The user information that `s` spells: `s` itself where it is all of the `userinfo` grammar.
pub open spec fn spec_user_info(s: Seq<u8>) -> Option<Seq<u8>> {
    if pct_whole(s, PctClass::UserInfo) {
        Some(s)
    } else {
        None
    }
}

impl UserInfo {
    /// Reads user information; it may be empty. A byte outside its grammar, or a broken `%XX`,
    /// is [`StatusCode::BAD_REQUEST`].
    pub fn from_bytes(src: &[u8]) -> (r: Result<UserInfo, StatusCode>)
        ensures
            match r {
                Ok(u) => spec_user_info(src@) == Some(u@),
                Err(e) => e == StatusCode::BAD_REQUEST && spec_user_info(src@) is None,
            },
    {
        if is_pct_whole(src, PctClass::UserInfo) {
            Ok(UserInfo { text: vstd::slice::slice_to_vec(src) })
        } else {
            Err(StatusCode::BAD_REQUEST)
        }
    }

    /// The bytes of the user information.
    pub fn as_bytes(&self) -> (r: &[u8])
        ensures
            r@ == self@,
    {
        self.text.as_slice()
    }
}

/// `authority = [ userinfo "@" ] host [ ":" port ]`
#[derive(Debug, PartialEq)]
pub struct Authority {
    user_info: Option<UserInfo>,
    host: Host,
    port: Option<u16>,
}

/// What an [`Authority`] holds. A port written as a bare `:` is `Some(0)`.
pub struct AuthorityView {
    pub user_info: Option<Seq<u8>>,
    pub host: HostView,
    pub port: Option<u16>,
}

impl View for Authority {
    type V = AuthorityView;

    closed spec fn view(&self) -> AuthorityView {
        AuthorityView {
            user_info: match self.user_info {
                Some(u) => Some(u@),
                None => None,
            },
            host: self.host@,
            port: self.port,
        }
    }
}

/// The most digits that a port may have.
pub const PORT_MAX_DIGITS: usize = 5;

/// The index of the last `byte` in `s`, or `-1` where there is none.
pub open spec fn rfind(s: Seq<u8>, byte: u8) -> int
    decreases s.len(),
{
    if s.len() == 0 {
        -1
    } else if s.last() == byte {
        s.len() - 1
    } else {
        rfind(s.drop_last(), byte)
    }
}

/// The port that `d` spells: `0` for no digits, else decimal digits worth at most 65535.
pub open spec fn spec_port(d: Seq<u8>) -> Option<u16> {
    if d.len() == 0 {
        Some(0)
    } else if (forall|i: int| 0 <= i < d.len() ==> crate::abnf::digit(#[trigger] d[i]))
        && radix_number(d, 10) <= 65535 {
        Some(radix_number(d, 10) as u16)
    } else {
        None
    }
}

/// The authority that `s` spells. User information runs up to the first `@`. The last `:` is
/// taken to open a port when at most five bytes follow it and the bytes before it are a host;
/// the port must then be valid. Otherwise all the rest is the host and there is no port.
pub open spec fn spec_authority(s: Seq<u8>) -> Option<AuthorityView> {
    let (info, rest) = match split_first(s, '@' as u8) {
        Some((a, b)) => (Some(a), b),
        None => (None, s),
    };
    let user_info = match info {
        Some(a) => match spec_user_info(a) {
            Some(u) => Some(Some(u)),
            None => None,
        },
        None => Some(None),
    };
    let c = rfind(rest, ':' as u8);
    if user_info is None {
        None
    } else if 0 <= c && rest.len() - c - 1 <= PORT_MAX_DIGITS && spec_host(rest.take(c)) is Some {
        match spec_port(rest.skip(c + 1)) {
            Some(p) => Some(
                AuthorityView {
                    user_info: user_info.unwrap(),
                    host: spec_host(rest.take(c)).unwrap(),
                    port: Some(p),
                },
            ),
            None => None,
        }
    } else {
        match spec_host(rest) {
            Some(h) => Some(AuthorityView { user_info: user_info.unwrap(), host: h, port: None }),
            None => None,
        }
    }
}

/// The index of the last `byte` in `src`.
fn rposition(src: &[u8], byte: u8) -> (r: Option<usize>)
    ensures
        match r {
            Some(i) => rfind(src@, byte) == i && i < src@.len(),
            None => rfind(src@, byte) == -1,
        },
{
    let mut i: usize = src.len();
    assert(src@.take(i as int) =~= src@);
    while i > 0
        invariant
            i <= src@.len(),
            rfind(src@, byte) == rfind(src@.take(i as int), byte),
        decreases i,
    {
        assert(src@.take(i as int).drop_last() =~= src@.take(i - 1));
        if src[i - 1] == byte {
            return Some(i - 1);
        }
        i = i - 1;
    }
    None
}

/// Reads a port of at most five bytes as [`spec_port`] states it.
fn parse_port(d: &[u8]) -> (r: Option<u16>)
    requires
        d@.len() <= PORT_MAX_DIGITS,
    ensures
        r == spec_port(d@),
{
    let mut v: u32 = 0;
    let mut i: usize = 0;
    while i < d.len()
        invariant
            i <= d@.len() <= 5,
            v == radix_number(d@.take(i as int), 10),
            v < crate::ip::pow_nat(10, i as nat),
            forall|j: int| 0 <= j < i ==> crate::abnf::digit(#[trigger] d@[j]),
        decreases d@.len() - i,
    {
        let b = d[i];
        if !('0' as u8 <= b && b <= '9' as u8) {
            return None;
        }
        proof {
            assert(d@.take(i + 1).drop_last() =~= d@.take(i as int));
            assert(crate::ip::pow_nat(10, 0) == 1);
            assert(crate::ip::pow_nat(10, 1) == 10);
            assert(crate::ip::pow_nat(10, 2) == 100);
            assert(crate::ip::pow_nat(10, 3) == 1000);
            assert(crate::ip::pow_nat(10, 4) == 10000);
            let p = crate::ip::pow_nat(10, i as nat);
            assert(crate::ip::pow_nat(10, (i + 1) as nat) == 10 * p);
            let dv = (b - '0' as u8) as nat;
            assert(v * 10 + dv < 10 * p) by (nonlinear_arith)
                requires
                    v < p,
                    dv < 10,
            ;
        }
        v = v * 10 + (b - '0' as u8) as u32;
        i = i + 1;
    }
    assert(d@.take(d@.len() as int) =~= d@);
    if v <= 65535 {
        Some(v as u16)
    } else {
        None
    }
}

impl Authority {
    /// Reads an authority: optional user information up to the first `@`, a host, and an
    /// optional port after the last `:`. An empty port is `Some(0)`; a port above 65535 or with
    /// a byte that is not a digit, like any invalid part, is [`StatusCode::BAD_REQUEST`].
    pub fn from_bytes(src: &[u8]) -> (r: Result<Authority, StatusCode>)
        ensures
            match r {
                Ok(a) => spec_authority(src@) == Some(a@),
                Err(e) => e == StatusCode::BAD_REQUEST && spec_authority(src@) is None,
            },
    {
        let (user_info, rest) = match split_at_next(src, '@' as u8) {
            Some((info, rest)) => match UserInfo::from_bytes(info) {
                Ok(u) => (Some(u), rest),
                Err(e) => return Err(e),
            },
            None => (None, src),
        };
        if let Some(c) = rposition(rest, ':' as u8) {
            if rest.len() - c - 1 <= PORT_MAX_DIGITS {
                if let Ok(host) = Host::from_bytes(vstd::slice::slice_subrange(rest, 0, c)) {
                    let digits = vstd::slice::slice_subrange(rest, c + 1, rest.len());
                    return match parse_port(digits) {
                        Some(p) => Ok(Authority { user_info, host, port: Some(p) }),
                        None => Err(StatusCode::BAD_REQUEST),
                    };
                }
            }
        }
        match Host::from_bytes(rest) {
            Ok(host) => Ok(Authority { user_info, host, port: None }),
            Err(e) => Err(e),
        }
    }

    /// The user information, if the authority has one.
    pub fn user_info(&self) -> (r: &Option<UserInfo>)
        ensures
            match r {
                Some(u) => self@.user_info == Some(u@),
                None => self@.user_info is None,
            },
    {
        &self.user_info
    }

    /// The host.
    pub fn host(&self) -> (r: &Host)
        ensures
            r@ == self@.host,
    {
        &self.host
    }

    /// The port: `None` where none was written, `Some(0)` for a bare `:`.
    pub fn port(&self) -> (r: Option<u16>)
        ensures
            r == self@.port,
    {
        self.port
    }
}

/// The upper case `HEXDIG` of a value below sixteen.
pub open spec fn hex_char(d: nat) -> u8 {
    if d < 10 {
        (d + '0' as u8) as u8
    } else {
        (d - 10 + 'A' as u8) as u8
    }
}

/// The upper case `HEXDIG`s of `v`, without leading zeros.
pub open spec fn hex_text(v: nat) -> Seq<u8>
    decreases v,
{
    if v < 16 {
        seq![hex_char(v)]
    } else {
        hex_text(v / 16).push(hex_char(v % 16))
    }
}

/// The text of a registered name or of an `IPvFuture` literal; an IP address has many
/// spellings, and none is chosen here.
pub open spec fn host_text(h: HostView) -> Option<Seq<u8>> {
    match h {
        HostView::Domain(d) => Some(d),
        HostView::IpvFuture(v, name) => Some(
            seq!['[' as u8, 'v' as u8] + hex_text(v as nat) + seq!['.' as u8] + name + seq![']' as u8],
        ),
        HostView::IpvN(_) => None,
    }
}

/// Appends the upper case `HEXDIG`s of `v` to `out`.
fn push_hex(out: &mut Vec<u8>, v: u16)
    ensures
        final(out)@ == old(out)@ + hex_text(v as nat),
    decreases v,
{
    if v >= 16 {
        push_hex(out, v / 16);
    }
    let d = v % 16;
    let c = if d < 10 {
        d as u8 + '0' as u8
    } else {
        d as u8 - 10 + 'A' as u8
    };
    proof {
        assert(c == hex_char(d as nat));
        if v >= 16 {
            assert(hex_text(v as nat) == hex_text((v / 16) as nat).push(hex_char((v % 16) as nat)));
        } else {
            assert(hex_text(v as nat) == seq![hex_char(v as nat)]);
        }
    }
    out.push(c);
    assert(out@ =~= old(out)@ + hex_text(v as nat));
}

impl Host {
    /// The text of a registered name or of an `IPvFuture` literal, which reads back as the
    /// same host; `None` for an IP address.
    pub fn to_bytes(&self) -> (r: Option<Vec<u8>>)
        ensures
            match r {
                Some(t) => host_text(self@) == Some(t@),
                None => host_text(self@) is None,
            },
    {
        match self {
            Host::Domain(d) => Some(d.clone()),
            Host::IpvFuture(v, name) => {
                let mut out: Vec<u8> = Vec::new();
                out.push('[' as u8);
                out.push('v' as u8);
                push_hex(&mut out, *v);
                out.push('.' as u8);
                let mut i: usize = 0;
                let ghost start = out@;
                while i < name.len()
                    invariant
                        i <= name@.len(),
                        out@ == start + name@.take(i as int),
                    decreases name@.len() - i,
                {
                    out.push(name[i]);
                    assert(out@ =~= start + name@.take(i + 1));
                    i = i + 1;
                }
                out.push(']' as u8);
                assert(name@.take(name@.len() as int) =~= name@);
                assert(out@ =~= seq!['[' as u8, 'v' as u8] + hex_text(*v as nat) + seq!['.' as u8]
                    + name@ + seq![']' as u8]);
                Some(out)
            },
            Host::IpvN(_) => None,
        }
    }
}

/// The digits of `v < 16^k` are at most `k` `HEXDIG`s worth `v`.
proof fn lemma_hex_text(v: nat, k: nat)
    requires
        1 <= k,
        v < crate::abnf::pow16(k),
    ensures
        1 <= hex_text(v).len() <= k,
        forall|i: int| 0 <= i < hex_text(v).len() ==> crate::abnf::hex_digit(#[trigger] hex_text(v)[i]),
        hex_number(hex_text(v)) == v,
    decreases v,
{
    if v < 16 {
        assert(hex_text(v) =~= seq![hex_char(v)]);
        assert(seq![hex_char(v)].drop_last() =~= Seq::<u8>::empty());
        assert(crate::abnf::hex_value(hex_char(v)) == v);
        assert(hex_number(hex_text(v)) == hex_number(Seq::<u8>::empty()) * 16 + crate::abnf::hex_value(hex_char(v)));
    } else {
        assert(k > 1) by {
            if k == 1 {
                assert(crate::abnf::pow16(1) == 16 * crate::abnf::pow16(0));
            }
        }
        let k1 = (k - 1) as nat;
        assert(crate::abnf::pow16(k) == 16 * crate::abnf::pow16(k1));
        assert(v / 16 < crate::abnf::pow16(k1)) by (nonlinear_arith)
            requires
                v < 16 * crate::abnf::pow16(k1),
        ;
        lemma_hex_text(v / 16, k1);
        crate::abnf::lemma_hex_number_push(hex_text(v / 16), hex_char(v % 16));
        assert(v == (v / 16) * 16 + v % 16) by (nonlinear_arith);
        assert(crate::abnf::hex_value(hex_char(v % 16)) == v % 16);
        assert(crate::abnf::hex_digit(hex_char(v % 16)));
        assert(hex_text(v) == hex_text(v / 16).push(hex_char(v % 16)));
        assert(hex_number(hex_text(v)) == hex_number(hex_text(v / 16)) * 16 + (v % 16));
    }
}

/// A run of `HEXDIG`s followed by a byte that is not one is read whole.
proof fn lemma_hex_run_len_prefix(h: Seq<u8>, rest: Seq<u8>, max: nat)
    requires
        h.len() <= max,
        forall|i: int| 0 <= i < h.len() ==> crate::abnf::hex_digit(#[trigger] h[i]),
        h.len() == max || rest.len() == 0 || !crate::abnf::hex_digit(rest[0]),
    ensures
        hex_run_len(h + rest, max) == h.len(),
    decreases h.len(),
{
    if h.len() > 0 {
        assert((h + rest).drop_first() =~= h.drop_first() + rest);
        assert((h + rest)[0] == h[0]);
        lemma_hex_run_len_prefix(h.drop_first(), rest, (max - 1) as nat);
    } else {
        assert(h + rest =~= rest);
    }
}

/// Writing out a host read as a registered name or an `IPvFuture` literal, and reading the
/// text again, gives back the same host.
pub proof fn lemma_host_round_trip(s: Seq<u8>)
    requires
        spec_host(s) matches Some(h) && !(h is IpvN),
    ensures
        spec_host(s) matches Some(h) && host_text(h) matches Some(t) && spec_host(t) == Some(h),
{
    let h = spec_host(s).unwrap();
    if let HostView::IpvFuture(v, name) = h {
        let inner_s = s.subrange(2, s.len() - 1);
        let n_s = hex_run_len(inner_s, 4) as int;
        assert(name =~= inner_s.skip(n_s).skip(1));
        let hx = hex_text(v as nat);
        assert(crate::abnf::pow16(4) == 65536) by {
            assert(crate::abnf::pow16(1) == 16 * crate::abnf::pow16(0));
            assert(crate::abnf::pow16(2) == 16 * crate::abnf::pow16(1));
            assert(crate::abnf::pow16(3) == 16 * crate::abnf::pow16(2));
            assert(crate::abnf::pow16(4) == 16 * crate::abnf::pow16(3));
        }
        lemma_hex_text(v as nat, 4);
        let t = seq!['[' as u8, 'v' as u8] + hx + seq!['.' as u8] + name + seq![']' as u8];
        let inner = t.subrange(2, t.len() - 1);
        let tail = seq!['.' as u8] + name;
        assert(inner =~= hx + tail);
        lemma_hex_run_len_prefix(hx, tail, 4);
        assert(inner.take(hx.len() as int) =~= hx);
        assert(inner.skip(hx.len() as int) =~= tail);
        assert(tail.skip(1) =~= name);
        assert(t[0] == '[' as u8 && t[1] == 'v' as u8 && t.last() == ']' as u8);
        assert(spec_ipv_future(t) == Some((v, name)));
    }
}

} // verus!
