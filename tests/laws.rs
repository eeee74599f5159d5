use ramus::{Authority, HeaderMap, Host, Method, Path, RequestLine, StatusCode, Uri};

#[test]
fn every_method_token_reads_back_as_its_method() {
    let methods = [
        Method::Get,
        Method::Head,
        Method::Post,
        Method::Put,
        Method::Delete,
        Method::Connect,
        Method::Options,
        Method::Trace,
    ];
    for m in methods {
        assert_eq!(Ok(m), Method::from_bytes(&m.to_bytes()));
    }
    assert_eq!(b"DELETE".to_vec(), Method::Delete.to_bytes());
    for other in [&b"get"[..], b"PATCH", b"", b"GETS", b"GET "] {
        assert_eq!(Err(StatusCode::NOT_IMPLEMENTED), Method::from_bytes(other));
    }
}

#[test]
fn rendered_domain_and_ipv_future_hosts_read_back_the_same() {
    for text in [&b"ex%41mple.com"[..], b"[v00A.x:y]", b"[vFFFF.a]", b"[v1.b]"] {
        let host = Host::from_bytes(text).unwrap();
        let rendered = host.to_bytes().unwrap();
        assert_eq!(Ok(host), Host::from_bytes(&rendered));
    }
    let future = Host::from_bytes(b"[v00A.x:y]").unwrap();
    assert_eq!(Host::IpvFuture(10, b"x:y".to_vec()), future);
    assert_eq!(b"[vA.x:y]".to_vec(), future.to_bytes().unwrap());
    assert_eq!(None, Host::from_bytes(b"127.0.0.1").unwrap().to_bytes());
}

#[test]
fn explicit_empty_port_is_zero_not_absent() {
    let with_colon = Authority::from_bytes(b"example.com:").unwrap();
    let without = Authority::from_bytes(b"example.com").unwrap();
    assert_eq!(Some(0), with_colon.port());
    assert_eq!(None, without.port());
    assert_eq!(with_colon.host(), without.host());
}

#[test]
fn doubled_slash_folds_but_leading_double_slash_is_rejected() {
    assert_eq!(b"hi/", Path::from_bytes(b"hi//").unwrap().as_bytes());
    assert_eq!(Err(StatusCode::BAD_REQUEST), Path::from_bytes(b"//hi"));
}

#[test]
fn set_cookie_values_do_not_overwrite_each_other() {
    let header = HeaderMap::from_bytes(b"set-cookie: a=1\r\nset-cookie: b=2\r\n").unwrap();
    assert_eq!(b"a=1", header.get(&ramus::HeaderFieldName::SET_COOKIE).unwrap().as_bytes());
    assert_eq!(b"b=2", header.set_cookie_extras()[0].as_bytes());
}

#[test]
fn space_before_colon_in_field_name_is_a_bad_request() {
    assert!(matches!(HeaderMap::from_bytes(b"accept :x\r\n"), Err(StatusCode::BAD_REQUEST)));
}

#[test]
fn request_line_fields_serialise_back_to_the_line() {
    let text = b"OPTIONS HTTP://Example.com:8042/over/there?name=ferret#nose HTTP/1.0";
    let line = RequestLine::from_bytes(text).unwrap();
    let mut out = line.method().to_bytes();
    out.push(b' ');
    let target = b"HTTP://Example.com:8042/over/there?name=ferret#nose";
    out.extend_from_slice(target);
    out.push(b' ');
    out.extend_from_slice(format!("HTTP/{}.{}", line.version().major(), line.version().minor()).as_bytes());
    assert_eq!(&text[..], &out[..]);
    assert_eq!(&Uri::from_bytes(target).unwrap(), line.uri());
    assert_eq!(b"http", line.uri().scheme().as_bytes());
}
