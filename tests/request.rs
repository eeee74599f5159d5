use ramus::{InvalidStatusCode, Method, RequestLine, StatusCode, Uri, Version};

fn assert_is_bad_request(right: Result<RequestLine, StatusCode>) {
    assert_eq!(Err(StatusCode::BAD_REQUEST), right);
}

#[test]
fn mod_empty_is_a_bad_request() {
    assert_is_bad_request(RequestLine::from_bytes(&[]));
}

#[test]
fn no_space_after_method_is_not_implemented_method() {
    assert_eq!(Err(StatusCode::NOT_IMPLEMENTED), RequestLine::from_bytes(b"GET/ HTTP/1.1"));
}

#[test]
fn no_space_after_uri_is_a_bad_request() {
    assert_is_bad_request(RequestLine::from_bytes(b"GET /HTTP/1.1"));
}

#[test]
fn uri_octets_above_max_length_is_a_uri_too_long() {
    let mut octets = vec![b'G', b'E', b'T', b' '];
    octets.extend([b'u'; 8001]);
    octets.push(b' ');
    assert_eq!(Err(StatusCode::URI_TOO_LONG), RequestLine::from_bytes(&octets))
}

#[test]
fn simple_request_line_is_valid() {
    let method = Method::from_bytes(b"GET").expect("failed to parse method");
    let uri = Uri::from_bytes(b"/").expect("failed to parse uri");
    let version = Version::from_bytes(b"HTTP/1.1").expect("failed to parse version");
    let line = RequestLine::from_bytes(b"GET / HTTP/1.1").unwrap();
    assert_eq!(method, line.method());
    assert_eq!(&uri, line.uri());
    assert_eq!(version, line.version());
}

#[test]
fn target_of_exactly_max_length_is_read() {
    let mut octets = vec![b'G', b'E', b'T', b' ', b'/'];
    octets.extend([b'u'; 7999]);
    octets.extend(b" HTTP/1.1");
    let line = RequestLine::from_bytes(&octets).unwrap();
    assert_eq!(8000, line.uri().path().as_bytes().len());
}

#[test]
fn bad_version_in_request_line_is_a_bad_request() {
    assert_is_bad_request(RequestLine::from_bytes(b"GET / HTTP/1.1 "));
    assert_is_bad_request(RequestLine::from_bytes(b"GET / HTTP/11"));
    assert_is_bad_request(RequestLine::from_bytes(b"GET // HTTP/1.1"));
}

#[test]
fn empty_bytes_is_a_bad_request() {
    assert_eq!(Err(StatusCode::BAD_REQUEST), Version::from_bytes(&[]));
}

#[test]
fn invalid_http_name_is_a_bad_request() {
    assert_eq!(Err(StatusCode::BAD_REQUEST), Version::from_bytes(b"HHHP/1.1"));
}

#[test]
fn invalid_version_numbers_is_a_bad_request() {
    assert_eq!(Err(StatusCode::BAD_REQUEST), Version::from_bytes(b"HTTP/A.1"));
    assert_eq!(Err(StatusCode::BAD_REQUEST), Version::from_bytes(b"HTTP/1.f"));
}

#[test]
fn valid_http_version() {
    let version = Version::from_bytes(b"HTTP/1.1").unwrap();
    assert_eq!(1, version.major());
    assert_eq!(1, version.minor());
    let version = Version::from_bytes(b"HTTP/2.0").unwrap();
    assert_eq!(2, version.major());
    assert_eq!(0, version.minor());
}

#[test]
fn known_three_digit_ascii_is_status_code() {
    assert_eq!(StatusCode::OK, StatusCode::from_bytes(b"200").unwrap());
    assert_eq!(StatusCode::NOT_FOUND, StatusCode::from_bytes(b"404").unwrap());
    assert_eq!(StatusCode::NOT_IMPLEMENTED, StatusCode::from_bytes(b"501").unwrap());
}

#[test]
fn not_enough_bytes_is_an_invalid_status_code() {
    assert!(StatusCode::from_bytes(b"2").is_err());
    assert!(StatusCode::from_bytes(b"20").is_err());
}

#[test]
fn too_much_bytes_is_an_invalid_status_code() {
    assert!(StatusCode::from_bytes(b"1000").is_err());
    assert!(StatusCode::from_bytes(b"10000").is_err());
}

#[test]
fn unknown_three_ascii_digits_is_an_invalid_status_code() {
    assert!(StatusCode::from_bytes(b"000").is_err());
    assert!(StatusCode::from_bytes(b"190").is_err());
    assert!(StatusCode::from_bytes(b"999").is_err());
}

#[test]
fn status_codes_carry_code_and_reason() {
    assert_eq!(414, StatusCode::URI_TOO_LONG.code());
    assert_eq!("URI Too Long", StatusCode::URI_TOO_LONG.reason());
    assert_eq!("OK", StatusCode::OK.reason());
    assert_eq!(Some(StatusCode::BAD_REQUEST), StatusCode::from_code(400));
    assert_eq!(None, StatusCode::from_code(418));
    assert_eq!(Err(InvalidStatusCode), StatusCode::from_bytes(b"418"));
}
