//! Header field values and the header section (RFC 7230 section 3.2).
use vstd::prelude::*;
use vstd::string::StringSliceAdditionalSpecFns;

use crate::header_name::{is_token, HeaderFieldName};
use crate::scheme::lower_all;
use crate::status_code::StatusCode;
use crate::utils::{bytes_eq, split_at_next, split_first};

verus! {

#[verifier::external_type_specification]
#[verifier::external_body]
pub struct ExUtf8Error(core::str::Utf8Error);

/// Relies on `std::str::from_utf8`: `Ok` exactly when the bytes are valid UTF-8, and then the
/// text is made of those bytes.
#[verifier::external_body]
fn str_from_utf8(v: &[u8]) -> (r: Result<&str, core::str::Utf8Error>)
    ensures
        match r {
            Ok(s) => vstd::utf8::valid_utf8(v@) && s.spec_bytes() == v@,
            Err(_) => !vstd::utf8::valid_utf8(v@),
        },
{
    core::str::from_utf8(v)
}

/// A header field value, kept as bytes: `obs-text` (0x80 to 0xFF) need not be valid text.
///
/// ```text
/// field-value   = *( field-content / obs-fold )
/// field-content = field-vchar [ 1*( SP / HTAB ) field-vchar ]
/// field-vchar   = VCHAR / obs-text
/// ```
#[derive(Debug, PartialEq)]
pub struct HeaderFieldValue {
    bytes: Vec<u8>,
}

impl View for HeaderFieldValue {
    type V = Seq<u8>;

    closed spec fn view(&self) -> Seq<u8> {
        self.bytes@
    }
}

impl HeaderFieldValue {
    /// Takes any bytes as a field value; this never fails.
    pub fn from_bytes(src: &[u8]) -> (r: Result<HeaderFieldValue, StatusCode>)
        ensures
            r matches Ok(v) && v@ == src@,
    {
        Ok(HeaderFieldValue { bytes: vstd::slice::slice_to_vec(src) })
    }

    /// The value as text, where its bytes are valid UTF-8.
    pub fn try_as_str(&self) -> (r: Result<&str, core::str::Utf8Error>)
        ensures
            match r {
                Ok(s) => vstd::utf8::valid_utf8(self@) && s.spec_bytes() == self@,
                Err(_) => !vstd::utf8::valid_utf8(self@),
            },
    {
        str_from_utf8(self.bytes.as_slice())
    }

    /// The value's bytes.
    pub fn as_bytes(&self) -> (r: &[u8])
        ensures
            r@ == self@,
    {
        self.bytes.as_slice()
    }
}

/// Optional whitespace: a space or a horizontal tab.
pub open spec fn ows(b: u8) -> bool {
    b == ' ' as u8 || b == '\t' as u8
}

/// `s` without its leading optional whitespace.
pub open spec fn trim_start(s: Seq<u8>) -> Seq<u8>
    decreases s.len(),
{
    if s.len() > 0 && ows(s[0]) {
        trim_start(s.drop_first())
    } else {
        s
    }
}

/// `s` without its trailing optional whitespace.
pub open spec fn trim_end(s: Seq<u8>) -> Seq<u8>
    decreases s.len(),
{
    if s.len() > 0 && ows(s.last()) {
        trim_end(s.drop_last())
    } else {
        s
    }
}

/// `s` without optional whitespace at either end.
pub open spec fn trim_ows(s: Seq<u8>) -> Seq<u8> {
    trim_end(trim_start(s))
}

/// Drops the optional whitespace at both ends of `src`.
pub fn trim_ows_bytes(src: &[u8]) -> (r: &[u8])
    ensures
        r@ == trim_ows(src@),
{
    let mut i: usize = 0;
    assert(src@.skip(0) =~= src@);
    while i < src.len() && (src[i] == ' ' as u8 || src[i] == '\t' as u8)
        invariant
            i <= src@.len(),
            trim_start(src@) == trim_start(src@.skip(i as int)),
        decreases src@.len() - i,
    {
        assert(src@.skip(i as int).drop_first() =~= src@.skip(i + 1));
        i = i + 1;
    }
    let mut j: usize = src.len();
    assert(src@.subrange(i as int, j as int) =~= src@.skip(i as int));
    while j > i && (src[j - 1] == ' ' as u8 || src[j - 1] == '\t' as u8)
        invariant
            i <= j <= src@.len(),
            trim_start(src@) == src@.skip(i as int),
            trim_ows(src@) == trim_end(src@.subrange(i as int, j as int)),
        decreases j,
    {
        assert(src@.subrange(i as int, j as int).drop_last() =~= src@.subrange(i as int, j - 1));
        j = j - 1;
    }
    vstd::slice::slice_subrange(src, i, j)
}

/// The token of the `Set-Cookie` field name.
pub open spec fn set_cookie() -> Seq<u8> {
    HeaderFieldName::SET_COOKIE@
}

/// What a [`HeaderMap`] holds: a value for each field name, by token, and the values of every
/// `Set-Cookie` field after the first, in order.
pub struct HeaderMapView {
    pub fields: Map<Seq<u8>, Seq<u8>>,
    pub set_cookie_extras: Seq<Seq<u8>>,
}

/// The effect of one insertion: a field replaces the value held for its name, except that a
/// second or later `Set-Cookie` joins the extras instead.
pub open spec fn insert_field(m: HeaderMapView, name: Seq<u8>, value: Seq<u8>) -> HeaderMapView {
    if name == set_cookie() && m.fields.contains_key(name) {
        HeaderMapView { fields: m.fields, set_cookie_extras: m.set_cookie_extras.push(value) }
    } else {
        HeaderMapView { fields: m.fields.insert(name, value), set_cookie_extras: m.set_cookie_extras }
    }
}

/// The header section with no fields.
pub open spec fn empty_headers() -> HeaderMapView {
    HeaderMapView { fields: Map::empty(), set_cookie_extras: Seq::empty() }
}

/// The first line of `s`, if it ends with CRLF and is `field-name ":" OWS field-value OWS`:
/// the name's token in lower case, the value, and the bytes after the CRLF.
pub open spec fn next_field(s: Seq<u8>) -> Option<(Seq<u8>, Seq<u8>, Seq<u8>)> {
    match split_first(s, '\r' as u8) {
        Some((line, rest)) => if rest.len() > 0 && rest[0] == '\n' as u8 {
            match split_first(line, ':' as u8) {
                Some((name, value)) => if is_token(name) {
                    Some((lower_all(name), trim_ows(value), rest.skip(1)))
                } else {
                    None
                },
                None => None,
            }
        } else {
            None
        },
        None => None,
    }
}

/// Each field line is shorter than what it starts.
pub proof fn lemma_next_field_shorter(s: Seq<u8>)
    ensures
        next_field(s) matches Some((n, v, rest)) ==> rest.len() < s.len(),
{
    crate::utils::lemma_find_any_bounds(s, seq!['\r' as u8]);
}

/// The headers that `m` becomes when the field lines of `s` are inserted in turn; `None` where
/// a line is malformed or the input does not end with a CRLF.
pub open spec fn headers_from(m: HeaderMapView, s: Seq<u8>) -> Option<HeaderMapView>
    decreases s.len(),
    via headers_from_decreases
{
    if s.len() == 0 {
        Some(m)
    } else {
        match next_field(s) {
            Some((name, value, rest)) => headers_from(insert_field(m, name, value), rest),
            None => None,
        }
    }
}

#[via_fn]
proof fn headers_from_decreases(m: HeaderMapView, s: Seq<u8>) {
    lemma_next_field_shorter(s);
}

/// The header section that `s` spells.
pub open spec fn spec_headers(s: Seq<u8>) -> Option<HeaderMapView> {
    headers_from(empty_headers(), s)
}

/// The header section of a message: one value for each field name, where a later field
/// replaces an earlier one of the same name; only `Set-Cookie` may come more than once, and
/// its values after the first are kept apart, in order.
pub struct HeaderMap {
    entries: Vec<(HeaderFieldName, HeaderFieldValue)>,
    set_cookie_extras: Vec<HeaderFieldValue>,
    fields: Ghost<Map<Seq<u8>, Seq<u8>>>,
}

impl View for HeaderMap {
    type V = HeaderMapView;

    closed spec fn view(&self) -> HeaderMapView {
        HeaderMapView {
            fields: self.fields@,
            set_cookie_extras: self.set_cookie_extras@.map_values(|v: HeaderFieldValue| v@),
        }
    }
}

/// Each entry holds the value that `fields` gives its name, every name of `fields` has an
/// entry, and no two entries share a name.
spec fn entries_match(
    entries: Seq<(HeaderFieldName, HeaderFieldValue)>,
    fields: Map<Seq<u8>, Seq<u8>>,
) -> bool {
    &&& forall|i: int|
        0 <= i < entries.len() ==> fields.contains_key(#[trigger] entries[i].0@) && fields[entries[i].0@]
            == entries[i].1@
    &&& forall|k: Seq<u8>|
        #[trigger] fields.contains_key(k) ==> exists|i: int| 0 <= i < entries.len() && entries[i].0@ == k
    &&& forall|i: int, j: int| 0 <= i < j < entries.len() ==> entries[i].0@ != entries[j].0@
}

impl HeaderMap {
    #[verifier::type_invariant]
    spec fn well_formed(self) -> bool {
        entries_match(self.entries@, self.fields@)
    }

    /// Creates an empty header section.
    pub fn new() -> (r: HeaderMap)
        ensures
            r@ == empty_headers(),
    {
        let r = HeaderMap {
            entries: Vec::new(),
            set_cookie_extras: Vec::new(),
            fields: Ghost(Map::empty()),
        };
        assert(r@.set_cookie_extras =~= Seq::<Seq<u8>>::empty());
        r
    }

    /// Where the entry for the name with token `name` is, if there is one.
    fn find(&self, name: &[u8]) -> (r: Option<usize>)
        ensures
            match r {
                Some(i) => i < self.entries@.len() && self.entries@[i as int].0@ == name@
                    && self@.fields.contains_key(name@),
                None => !self@.fields.contains_key(name@),
            },
    {
        proof {
            use_type_invariant(self);
        }
        let mut i: usize = 0;
        while i < self.entries.len()
            invariant
                i <= self.entries@.len(),
                forall|j: int| 0 <= j < i ==> self.entries@[j].0@ != name@,
            decreases self.entries@.len() - i,
        {
            if bytes_eq(self.entries[i].0.as_bytes(), name) {
                proof {
                    use_type_invariant(self);
                }
                return Some(i);
            }
            i = i + 1;
        }
        proof {
            use_type_invariant(self);
        }
        None
    }

    /// Inserts a field. Its value replaces the one held for its name, which is returned; but
    /// a `Set-Cookie` field when one is held already joins the extra `Set-Cookie` values.
    pub fn insert(&mut self, key: HeaderFieldName, value: HeaderFieldValue) -> (r: Option<
        HeaderFieldValue,
    >)
        ensures
            final(self)@ == insert_field(old(self)@, key@, value@),
            match r {
                Some(v) => key@ != set_cookie() && old(self)@.fields.contains_key(key@) && v@
                    == old(self)@.fields[key@],
                None => key@ == set_cookie() || !old(self)@.fields.contains_key(key@),
            },
    {
        if bytes_eq(key.as_bytes(), HeaderFieldName::SET_COOKIE.as_bytes()) {
            self.insert_extra(key, value)
        } else {
            self.replace(key, value)
        }
    }

    /// Inserts a `Set-Cookie` field: the first is held as the field's value, later ones join
    /// the extras.
    fn insert_extra(&mut self, key: HeaderFieldName, value: HeaderFieldValue) -> (r: Option<
        HeaderFieldValue,
    >)
        requires
            key@ == set_cookie(),
        ensures
            final(self)@ == insert_field(old(self)@, key@, value@),
            r is None,
    {
        match self.find(key.as_bytes()) {
            Some(_) => {
                proof {
                    use_type_invariant(&*self);
                }
                let ghost before = self@;
                let HeaderMap { entries, mut set_cookie_extras, fields } = self.take();
                set_cookie_extras.push(value);
                *self = HeaderMap { entries, set_cookie_extras, fields };
                assert(self@.set_cookie_extras =~= before.set_cookie_extras.push(value@));
                None
            },
            None => {
                let old_value = self.replace(key, value);
                None
            },
        }
    }

    /// Moves the fields out, leaving an empty map.
    fn take(&mut self) -> (r: HeaderMap)
        ensures
            r@ == old(self)@,
            r.entries@ == old(self).entries@,
            r.fields@ == old(self).fields@,
            entries_match(r.entries@, r.fields@),
    {
        let mut r = HeaderMap::new();
        std::mem::swap(self, &mut r);
        proof {
            use_type_invariant(&r);
        }
        r
    }

    /// Holds `value` for `key`'s name, and returns the value held before.
    fn replace(&mut self, key: HeaderFieldName, value: HeaderFieldValue) -> (r: Option<
        HeaderFieldValue,
    >)
        ensures
            final(self)@.fields == old(self)@.fields.insert(key@, value@),
            final(self)@.set_cookie_extras == old(self)@.set_cookie_extras,
            match r {
                Some(v) => old(self)@.fields.contains_key(key@) && v@ == old(self)@.fields[key@],
                None => !old(self)@.fields.contains_key(key@),
            },
    {
        proof {
            use_type_invariant(&*self);
        }
        let ghost k = key@;
        let ghost v = value@;
        let ghost new_fields = self.fields@.insert(k, v);
        let found = self.find(key.as_bytes());
        let HeaderMap { mut entries, set_cookie_extras, fields } = self.take();
        let ghost old_entries = entries@;
        let ghost old_fields = fields@;
        let r = match found {
            Some(i) => {
                let (name, old_value) = entries.remove(i);
                entries.insert(i, (name, value));
                assert(entries@ =~= old_entries.update(i as int, (name, value)));
                assert forall|k2: Seq<u8>| #[trigger] new_fields.contains_key(k2) implies exists|
                    j: int,
                | 0 <= j < entries@.len() && entries@[j].0@ == k2 by {
                    if k2 != k {
                        let j = choose|j: int| 0 <= j < old_entries.len() && old_entries[j].0@ == k2;
                        assert(entries@[j].0@ == k2);
                    } else {
                        assert(entries@[i as int].0@ == k2);
                    }
                }
                Some(old_value)
            },
            None => {
                entries.push((key, value));
                assert forall|k2: Seq<u8>| #[trigger] new_fields.contains_key(k2) implies exists|
                    j: int,
                | 0 <= j < entries@.len() && entries@[j].0@ == k2 by {
                    if k2 != k {
                        let j = choose|j: int| 0 <= j < old_entries.len() && old_entries[j].0@ == k2;
                        assert(entries@[j].0@ == k2);
                    } else {
                        assert(entries@[old_entries.len() as int].0@ == k2);
                    }
                }
                None
            },
        };
        *self = HeaderMap { entries, set_cookie_extras, fields: Ghost(new_fields) };
        r
    }

    /// The value held for `name`, if any.
    pub fn get(&self, name: &HeaderFieldName) -> (r: Option<&HeaderFieldValue>)
        ensures
            match r {
                Some(v) => self@.fields.contains_key(name@) && v@ == self@.fields[name@],
                None => !self@.fields.contains_key(name@),
            },
    {
        proof {
            use_type_invariant(self);
        }
        match self.find(name.as_bytes()) {
            Some(i) => Some(&self.entries[i].1),
            None => None,
        }
    }

    /// The values of the `Set-Cookie` fields after the first, in order.
    pub fn set_cookie_extras(&self) -> (r: &[HeaderFieldValue])
        ensures
            r@.map_values(|v: HeaderFieldValue| v@) == self@.set_cookie_extras,
    {
        self.set_cookie_extras.as_slice()
    }

    /// Returns true if the map holds no field.
    pub fn is_empty(&self) -> (r: bool)
        ensures
            r == (self@.fields == Map::<Seq<u8>, Seq<u8>>::empty()),
    {
        proof {
            use_type_invariant(self);
        }
        if self.entries.len() == 0 {
            assert(self@.fields =~= Map::<Seq<u8>, Seq<u8>>::empty());
            true
        } else {
            assert(self@.fields.contains_key(self.entries@[0].0@));
            false
        }
    }

    /// Reads a header section: lines of `field-name ":" OWS field-value OWS` each ended by
    /// CRLF, inserted in turn. A line without `:`, a name that is not a token, or bytes not
    /// ended by CRLF is [`StatusCode::BAD_REQUEST`].
    pub fn from_bytes(src: &[u8]) -> (r: Result<HeaderMap, StatusCode>)
        ensures
            match r {
                Ok(m) => spec_headers(src@) == Some(m@),
                Err(e) => e == StatusCode::BAD_REQUEST && spec_headers(src@) is None,
            },
    {
        let mut map = HeaderMap::new();
        let mut rest = src;
        while rest.len() > 0
            invariant
                spec_headers(src@) == headers_from(map@, rest@),
            decreases rest@.len(),
        {
            proof {
                lemma_next_field_shorter(rest@);
            }
            let (line, after) = match split_at_next(rest, '\r' as u8) {
                Some(x) => x,
                None => return Err(StatusCode::BAD_REQUEST),
            };
            if !(after.len() > 0 && after[0] == '\n' as u8) {
                return Err(StatusCode::BAD_REQUEST);
            }
            let (name, value) = match split_at_next(line, ':' as u8) {
                Some(x) => x,
                None => return Err(StatusCode::BAD_REQUEST),
            };
            let name = match HeaderFieldName::from_bytes(name) {
                Ok(n) => n,
                Err(e) => return Err(e),
            };
            let value = match HeaderFieldValue::from_bytes(trim_ows_bytes(value)) {
                Ok(v) => v,
                Err(e) => return Err(e),
            };
            map.insert(name, value);
            rest = vstd::slice::slice_subrange(after, 1, after.len());
        }
        Ok(map)
    }
}

} // verus!
