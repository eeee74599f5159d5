use ramus::{Authority, Fragment, Host, Path, Query, Scheme, StatusCode, Uri};

fn assert_uri_is_bad_request(bytes: &[u8]) {
    assert_eq!(Err(StatusCode::BAD_REQUEST), Uri::from_bytes(bytes));
}

fn assert_path_is_bad_request(bytes: &[u8]) {
    assert_eq!(Err(StatusCode::BAD_REQUEST), Path::from_bytes(bytes));
}

fn assert_scheme_is_bad_request(bytes: &[u8]) {
    assert_eq!(Err(StatusCode::BAD_REQUEST), Scheme::from_bytes(bytes));
}

fn assert_uri_parts(
    uri: &Uri,
    scheme: &[u8],
    authority: Option<&[u8]>,
    path: &[u8],
    query: &[u8],
    fragment: &[u8],
) {
    assert_eq!(&Scheme::from_bytes(scheme).expect("failed to parse scheme"), uri.scheme());
    match authority {
        Some(a) => assert_eq!(
            &Some(Authority::from_bytes(a).expect("failed to parse authority")),
            uri.authority()
        ),
        None => assert!(uri.authority().is_none()),
    }
    assert_eq!(&Path::from_bytes(path).expect("failed to parse path"), uri.path());
    assert_eq!(&Query::from_bytes(query).expect("failed to parse query"), uri.query());
    assert_eq!(&Fragment::from_bytes(fragment).expect("failed to parse fragment"), uri.fragment());
}

#[test]
fn non_alpha_prefix_ascii_char_is_a_bad_request() {
    assert_scheme_is_bad_request(b"+");
    assert_scheme_is_bad_request(b"1");
    assert_scheme_is_bad_request(b"%");
}

#[test]
fn invalid_ascii_in_scheme_is_a_bad_request() {
    assert_scheme_is_bad_request(b"http~");
    assert_scheme_is_bad_request(b"c@t");
}

#[test]
fn empty_scheme_is_valid() {
    let scheme = Scheme::from_bytes(&[]).unwrap();
    assert!(scheme.is_empty());
    assert_eq!(Scheme::default(), scheme);
}

#[test]
fn known_protocols_are_schemes() {
    assert_eq!(b"http", Scheme::from_bytes(b"http").unwrap().as_bytes());
    assert_eq!(b"https", Scheme::from_bytes(b"https").unwrap().as_bytes());
}

#[test]
fn scheme_will_normalize_to_lowercase() {
    assert_eq!(b"http", Scheme::from_bytes(b"HTTP").unwrap().as_bytes());
    assert_eq!(b"scheme", Scheme::from_bytes(b"SCHEME").unwrap().as_bytes());
}

#[test]
fn scheme_may_hold_digits_plus_minus_and_dot() {
    assert_eq!(b"h2c+x-y.z", Scheme::from_bytes(b"H2C+x-Y.z").unwrap().as_bytes());
}

#[test]
fn non_pchar_prefix_is_a_bad_request() {
    assert_path_is_bad_request(b">hi/yo");
}

#[test]
fn double_forward_slash_is_a_bad_request() {
    assert_path_is_bad_request(b"//hi")
}

#[test]
fn empty_path_is_valid() {
    assert_eq!(Ok(Path::default()), Path::from_bytes(&[]));
}

#[test]
fn path_single_forward_slash_is_valid() {
    assert_eq!(b"/", Path::from_bytes(b"/").unwrap().as_bytes());
}

#[test]
fn multiple_forward_slashes_are_replaced_with_one() {
    assert_eq!(b"hi/", Path::from_bytes(b"hi//").unwrap().as_bytes());
}

#[test]
fn slash_with_segment_is_valid() {
    assert_eq!(b"/example", Path::from_bytes(b"/example").unwrap().as_bytes());
}

#[test]
fn slash_with_multiple_segments_is_valid() {
    assert_eq!(b"/this/is/valid", Path::from_bytes(b"/this/is/valid").unwrap().as_bytes());
}

#[test]
fn segment_nz_then_segment_is_valid() {
    assert_eq!(b"this:is:@", Path::from_bytes(b"this:is:@").unwrap().as_bytes());
    assert_eq!(b"this:is:@/", Path::from_bytes(b"this:is:@/").unwrap().as_bytes());
    assert_eq!(b"this:is:@/valid", Path::from_bytes(b"this:is:@/valid").unwrap().as_bytes());
}

#[test]
fn interior_slash_runs_fold_to_one() {
    assert_eq!(b"/a/b/", Path::from_bytes(b"/a///b//").unwrap().as_bytes());
}

#[test]
fn path_with_broken_pct_encoding_is_a_bad_request() {
    assert_path_is_bad_request(b"/a%2");
    assert_path_is_bad_request(b"/a%2f");
    assert_eq!(b"/a%2F", Path::from_bytes(b"/a%2F").unwrap().as_bytes());
}

#[test]
fn query_and_fragment_take_slash_and_question_mark() {
    assert_eq!(b"a/b?c", Query::from_bytes(b"a/b?c").unwrap().as_bytes());
    let fragment = Fragment::from_bytes(b"Hello").expect("valid fragment bytes");
    assert_eq!(5, fragment.len());
    assert!(!fragment.is_empty());
    assert!(Fragment::default().is_empty());
    assert_eq!(Err(StatusCode::BAD_REQUEST), Fragment::from_bytes(b"a#b"));
    assert_eq!(Err(StatusCode::BAD_REQUEST), Query::from_bytes(b"a b"));
}

#[test]
fn empty_array_is_a_bad_request() {
    assert_uri_is_bad_request(&[]);
}

#[test]
fn authority_without_path_forward_slash_is_a_bad_request() {
    assert_uri_is_bad_request(b"http://example.com")
}

#[test]
fn double_hash_is_a_bad_request() {
    assert_uri_is_bad_request(b"http://example.com/#sss#sh");
}

#[test]
fn mod_single_forward_slash_is_valid() {
    let uri = Uri::from_bytes(b"/").unwrap();
    assert_uri_parts(&uri, b"", None, b"/", b"", b"");
}

#[test]
fn uri_with_scheme_authority_path_query_fragment() {
    let uri = Uri::from_bytes(b"foo://example.com:8042/over/there?name=ferret#nose").unwrap();
    assert_uri_parts(&uri, b"foo", Some(b"example.com:8042"), b"/over/there", b"name=ferret", b"nose");
    let authority = uri.authority().as_ref().unwrap();
    assert_eq!(&Host::Domain(b"example.com".to_vec()), authority.host());
    assert_eq!(Some(8042), authority.port());
    assert_eq!(b"foo", uri.scheme().as_bytes());
    assert_eq!(b"/over/there", uri.path().as_bytes());
    assert_eq!(b"name=ferret", uri.query().as_bytes());
    assert_eq!(b"nose", uri.fragment().as_bytes());
}

#[test]
fn scheme_can_be_empty() {
    let uri = Uri::from_bytes(b"://example.com:8042/over/there?name=ferret#nose").unwrap();
    assert_uri_parts(&uri, b"", Some(b"example.com:8042"), b"/over/there", b"name=ferret", b"nose");
}

#[test]
fn uri_with_authority_can_have_empty_path() {
    let uri = Uri::from_bytes(b"foo://example.com:8042?name=ferret#nose").unwrap();
    assert_uri_parts(&uri, b"foo", Some(b"example.com:8042"), b"", b"name=ferret", b"nose");
    let uri = Uri::from_bytes(b"foo://example.com:8042#nose").unwrap();
    assert_uri_parts(&uri, b"foo", Some(b"example.com:8042"), b"", b"", b"nose");
}

#[test]
fn uri_with_authority_and_no_query_or_fragment_must_have_a_forward_slash_path() {
    let uri = Uri::from_bytes(b"foo://example.com:8042/").unwrap();
    assert_uri_parts(&uri, b"foo", Some(b"example.com:8042"), b"/", b"", b"");
}

#[test]
fn authority_is_optional() {
    let uri = Uri::from_bytes(b"foo:/over/there?name=ferret#nose").unwrap();
    assert_uri_parts(&uri, b"foo", None, b"/over/there", b"name=ferret", b"nose");
}

#[test]
fn bare_trailing_question_mark_or_hash_is_empty() {
    let uri = Uri::from_bytes(b"/a?").unwrap();
    assert_uri_parts(&uri, b"", None, b"/a", b"", b"");
    let uri = Uri::from_bytes(b"/a#").unwrap();
    assert_uri_parts(&uri, b"", None, b"/a", b"", b"");
    let uri = Uri::from_bytes(b"/a?q#").unwrap();
    assert_uri_parts(&uri, b"", None, b"/a", b"q", b"");
}

#[test]
fn uri_scheme_is_lower_cased() {
    let uri = Uri::from_bytes(b"HTTP://example.com/").unwrap();
    assert_eq!(b"http", uri.scheme().as_bytes());
}
