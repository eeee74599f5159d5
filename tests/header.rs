use ramus::{HeaderFieldName, HeaderFieldValue, HeaderMap, StatusCode};

#[test]
fn empty_bytes_creates_default_header_map() {
    assert!(HeaderMap::from_bytes(&[]).map(|hm| hm.is_empty()).unwrap_or_default())
}

#[test]
fn field_name_with_space_before_colon_is_a_bad_request() {
    assert!(matches!(
        HeaderMap::from_bytes(b"accept :this will be ignored\r\n"),
        Err(StatusCode::BAD_REQUEST)
    ));
}

#[test]
fn single_registered_field() {
    let header = HeaderMap::from_bytes(b"accept: text/html\r\n").expect("valid header field bytes");
    let value = HeaderFieldValue::from_bytes(b"text/html").unwrap();
    assert_eq!(&value, header.get(&HeaderFieldName::ACCEPT).unwrap());
}

#[test]
fn set_cookie_fields_are_all_kept() {
    let header = HeaderMap::from_bytes(b"set-cookie: a=1\r\nset-cookie: b=2\r\n").unwrap();
    assert_eq!(b"a=1", header.get(&HeaderFieldName::SET_COOKIE).unwrap().as_bytes());
    let extras = header.set_cookie_extras();
    assert_eq!(1, extras.len());
    assert_eq!(b"b=2", extras[0].as_bytes());
}

#[test]
fn later_field_replaces_earlier_one() {
    let header = HeaderMap::from_bytes(b"Host: a\r\nhost: b\r\n").unwrap();
    assert_eq!(b"b", header.get(&HeaderFieldName::HOST).unwrap().as_bytes());
    assert!(header.set_cookie_extras().is_empty());
}

#[test]
fn insert_returns_the_replaced_value() {
    let mut map = HeaderMap::new();
    assert!(map.is_empty());
    let v1 = HeaderFieldValue::from_bytes(b"1").unwrap();
    let v2 = HeaderFieldValue::from_bytes(b"2").unwrap();
    assert!(map.insert(HeaderFieldName::ACCEPT, v1).is_none());
    assert_eq!(b"1", map.insert(HeaderFieldName::ACCEPT, v2).unwrap().as_bytes());
    assert!(!map.is_empty());
    let c1 = HeaderFieldValue::from_bytes(b"x").unwrap();
    let c2 = HeaderFieldValue::from_bytes(b"y").unwrap();
    assert!(map.insert(HeaderFieldName::SET_COOKIE, c1).is_none());
    assert!(map.insert(HeaderFieldName::SET_COOKIE, c2).is_none());
    assert_eq!(b"x", map.get(&HeaderFieldName::SET_COOKIE).unwrap().as_bytes());
    assert_eq!(b"y", map.set_cookie_extras()[0].as_bytes());
}

#[test]
fn optional_whitespace_around_the_value_is_dropped() {
    let header = HeaderMap::from_bytes(b"accept: \t text/html \t\r\n").unwrap();
    assert_eq!(b"text/html", header.get(&HeaderFieldName::ACCEPT).unwrap().as_bytes());
}

#[test]
fn malformed_header_lines_are_bad_requests() {
    assert!(matches!(HeaderMap::from_bytes(b"accept text\r\n"), Err(StatusCode::BAD_REQUEST)));
    assert!(matches!(HeaderMap::from_bytes(b": text\r\n"), Err(StatusCode::BAD_REQUEST)));
    assert!(matches!(HeaderMap::from_bytes(b"accept: a\n"), Err(StatusCode::BAD_REQUEST)));
    assert!(matches!(HeaderMap::from_bytes(b"accept: a\r\nhost"), Err(StatusCode::BAD_REQUEST)));
    assert!(matches!(HeaderMap::from_bytes(b"accept: a\rx"), Err(StatusCode::BAD_REQUEST)));
}

#[test]
fn field_names_are_case_insensitive_and_custom_names_are_kept() {
    assert_eq!(Ok(HeaderFieldName::ACCEPT), HeaderFieldName::from_bytes(b"AcCePt"));
    assert_eq!(Ok(HeaderFieldName::SET_COOKIE), HeaderFieldName::from_bytes(b"Set-Cookie"));
    assert_eq!(Ok(HeaderFieldName::X_FRAME_OPTIONS), HeaderFieldName::from_bytes(b"x-frame-options"));
    assert_eq!(Ok(HeaderFieldName::A_IM), HeaderFieldName::from_bytes(b"A-IM"));
    assert_eq!(
        Ok(HeaderFieldName::Custom(b"x-my-header".to_vec())),
        HeaderFieldName::from_bytes(b"X-My-Header")
    );
    assert_eq!(b"accept", HeaderFieldName::ACCEPT.as_bytes());
    assert_eq!(Err(StatusCode::BAD_REQUEST), HeaderFieldName::from_bytes(b""));
    assert_eq!(Err(StatusCode::BAD_REQUEST), HeaderFieldName::from_bytes(b"a b"));
}

#[test]
fn header_value_keeps_obs_text() {
    let value = HeaderFieldValue::from_bytes(&[0x61, 0xff, 0x62]).unwrap();
    assert_eq!(&[0x61, 0xff, 0x62], value.as_bytes());
    assert!(value.try_as_str().is_err());
    let text = HeaderFieldValue::from_bytes(b"text/html").unwrap();
    assert_eq!(Ok("text/html"), text.try_as_str());
}

#[test]
fn every_spelling_of_a_registered_name_reads_as_it() {
    for (text, name) in [
        (&b"HTTP2-Settings"[..], HeaderFieldName::HTTP2_SETTINGS),
        (b"www-authenticate", HeaderFieldName::WWW_AUTHENTICATE),
        (b"Content-Type", HeaderFieldName::CONTENT_TYPE),
        (b"COOKIE", HeaderFieldName::COOKIE),
    ] {
        assert_eq!(Ok(name), HeaderFieldName::from_bytes(text));
    }
}
