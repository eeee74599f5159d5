use ramus::authority::ipv_future_from_bytes;
use ramus::{Authority, Host, IpAddress, StatusCode, UserInfo};

fn assert_is_bad_request<T: std::fmt::Debug + PartialEq>(right: Result<T, StatusCode>) {
    assert_eq!(Err(StatusCode::BAD_REQUEST), right);
}

fn assert_valid_user_info(user_info: &str) {
    let parsed = UserInfo::from_bytes(user_info.as_bytes()).unwrap();
    assert_eq!(user_info.as_bytes(), parsed.as_bytes());
}

fn ipv4(o: [u8; 4]) -> Host {
    Host::IpvN(IpAddress::V4(o[0], o[1], o[2], o[3]))
}

fn ipv6(g: [u16; 8]) -> Host {
    Host::IpvN(IpAddress::V6(g[0], g[1], g[2], g[3], g[4], g[5], g[6], g[7]))
}

fn assert_authority(a: &Authority, user_info: Option<&[u8]>, host: Host, port: Option<u16>) {
    match user_info {
        Some(u) => assert_eq!(u, a.user_info().as_ref().unwrap().as_bytes()),
        None => assert!(a.user_info().is_none()),
    }
    assert_eq!(&host, a.host());
    assert_eq!(port, a.port());
}

#[test]
fn authority_empty_is_a_bad_request() {
    assert_is_bad_request(Authority::from_bytes(&[]));
    assert_is_bad_request(Host::from_bytes(&[]));
}

#[test]
fn domain_name_with_too_large_port_is_a_bad_request() {
    assert_is_bad_request(Authority::from_bytes(b"example.com:70000"));
    assert_is_bad_request(Authority::from_bytes(b"example.com:65536"));
}

#[test]
fn domain_name_with_five_digit_port_is_valid() {
    let a = Authority::from_bytes(b"example.com:50000").unwrap();
    assert_authority(&a, None, Host::Domain(b"example.com".to_vec()), Some(50000));
    let a = Authority::from_bytes(b"example.com:65535").unwrap();
    assert_eq!(Some(65535), a.port());
}

#[test]
fn port_with_a_non_digit_is_a_bad_request() {
    assert_is_bad_request(Authority::from_bytes(b"example.com:80a"));
}

#[test]
fn ipv_future_is_valid_with_port() {
    let a = Authority::from_bytes(b"[v4.2000:db8:ff00:32:1000]:8080").unwrap();
    assert_authority(&a, None, Host::IpvFuture(4, b"2000:db8:ff00:32:1000".to_vec()), Some(8080));
}

#[test]
fn ipv_future_is_valid_without_port() {
    let a = Authority::from_bytes(b"[v4.2000:db8:ff00:32:1000]").unwrap();
    assert_authority(&a, None, Host::IpvFuture(4, b"2000:db8:ff00:32:1000".to_vec()), None);
}

#[test]
fn example_is_valid() {
    let a = Authority::from_bytes(b"example.com:8042").unwrap();
    assert_authority(&a, None, Host::Domain(b"example.com".to_vec()), Some(8042));
}

#[test]
fn domain_name_with_empty_port_is_valid() {
    let a = Authority::from_bytes(b"example.com:").unwrap();
    assert_authority(&a, None, Host::Domain(b"example.com".to_vec()), Some(0));
}

#[test]
fn ipv4_addr_with_port_is_valid() {
    let a = Authority::from_bytes(b"127.0.0.1:80").unwrap();
    assert_authority(&a, None, ipv4([127, 0, 0, 1]), Some(80));
}

#[test]
fn user_info_is_split_off_at_the_first_at_sign() {
    let a = Authority::from_bytes(b"user:pw@example.com:8080").unwrap();
    assert_authority(&a, Some(b"user:pw"), Host::Domain(b"example.com".to_vec()), Some(8080));
    assert_is_bad_request(Authority::from_bytes(b"us er@example.com"));
}

#[test]
fn ipv6_literal_with_and_without_port() {
    let a = Authority::from_bytes(b"[::1]:8080").unwrap();
    assert_authority(&a, None, ipv6([0, 0, 0, 0, 0, 0, 0, 1]), Some(8080));
    let a = Authority::from_bytes(b"[::1]").unwrap();
    assert_authority(&a, None, ipv6([0, 0, 0, 0, 0, 0, 0, 1]), None);
}

#[test]
fn colon_before_the_port_window_is_not_a_port() {
    // six digits after the last colon: no port, and a colon is no reg-name byte
    assert_is_bad_request(Authority::from_bytes(b"example.com:123456"));
}

#[test]
fn invalid_pct_encoded_is_a_bad_request() {
    assert_is_bad_request(UserInfo::from_bytes(b"%"));
    assert_is_bad_request(UserInfo::from_bytes(b"%F"));
    // HEXDIG is only valid when using uppercase letters!
    assert_is_bad_request(UserInfo::from_bytes(b"%1a"));
}

#[test]
fn invalid_ascii_char_is_a_bad_request() {
    assert_is_bad_request(UserInfo::from_bytes(b"@"));
}

#[test]
fn empty_userinfo_is_valid() {
    assert_valid_user_info("");
}

#[test]
fn multiple_unreserved_chars_is_valid() {
    assert_valid_user_info("A9-3F.l6_o2~");
}

#[test]
fn multiple_sub_delims_is_valid() {
    assert_valid_user_info("!*$+&,';(=)");
}

#[test]
fn multiple_pct_encoded_is_valid() {
    assert_valid_user_info("%2F%9A%11%FF");
}

#[test]
fn multiple_user_info_parts_is_valid() {
    assert_valid_user_info("%2B!*A22=(%108");
}

#[test]
fn ipv_future_without_known_prefix_is_a_bad_request() {
    // known prefix is "[v"
    assert_is_bad_request(ipv_future_from_bytes(&[]));
    assert_is_bad_request(ipv_future_from_bytes(b"[a2.Hi]"));
    assert_is_bad_request(ipv_future_from_bytes(b"@vF.something]"));
    // Note prefix is case sensitive
    assert_is_bad_request(ipv_future_from_bytes(b"[V9.2001:db8:ff00:42:8329]"));
}

#[test]
fn ipv_future_without_hex_dig_is_a_bad_request() {
    assert_is_bad_request(ipv_future_from_bytes(b"[v.2001:db8:ff00:32:1111]"));
    // G is not a valid hexdig
    assert_is_bad_request(ipv_future_from_bytes(b"[vG.2001:db8:ff00:32:1111]"));
}

#[test]
fn ipv_future_version_that_overflows_u16_is_a_bad_request() {
    assert_is_bad_request(ipv_future_from_bytes(b"[vFFFF1.2001:db8:ff00:32:1122]"));
}

#[test]
fn ipv_future_without_period_seperator_is_a_bad_request() {
    assert_is_bad_request(ipv_future_from_bytes(b"[vFF2001:db8:ff00:32:1111]"));
}

#[test]
fn ipv_future_basic_success() {
    assert_eq!(
        Ok((9u16, b"2022:dn8:aa23:74:2232".to_vec())),
        ipv_future_from_bytes(b"[v9.2022:dn8:aa23:74:2232]")
    );
}

#[test]
fn ipv_future_accepts_mutliple_hex_dig_in_version() {
    assert_eq!(
        Ok((255u16, b"2001:db7:ff00:32:4444".to_vec())),
        ipv_future_from_bytes(b"[vFF.2001:db7:ff00:32:4444]")
    );
}

#[test]
fn ipv_future_with_a_byte_outside_its_grammar_is_a_bad_request() {
    assert_is_bad_request(ipv_future_from_bytes(b"[v1.ab%]"));
    assert_is_bad_request(ipv_future_from_bytes(b"[v1.]"));
}

#[test]
fn reserved_char_prefix_is_a_bad_request() {
    assert_is_bad_request(Host::from_bytes(b"@example.org"));
}

#[test]
fn ipv_future_is_a_host() {
    assert_eq!(
        Ok(Host::IpvFuture(4, b"2000:db8:ff00:32:1000".to_vec())),
        Host::from_bytes(b"[v4.2000:db8:ff00:32:1000]")
    );
}

#[test]
fn ipv6_addr_is_a_host() {
    let ipv6_addr = [0x2001, 0xdb8, 0xaaaa, 0xbbbb, 0xcccc, 0xdddd, 0xeeee, 0x0001];
    assert_eq!(Ok(ipv6(ipv6_addr)), Host::from_bytes(b"[2001:db8:aaaa:bbbb:cccc:dddd:eeee:0001]"));
}

#[test]
fn ipv4_addr_is_a_host() {
    let ipv4_addr = [127, 0, 0, 1];
    assert_eq!(Ok(ipv4(ipv4_addr)), Host::from_bytes(b"127.0.0.1"))
}

#[test]
fn domain_name_is_a_host() {
    assert_eq!(Ok(Host::Domain(b"example.com".to_vec())), Host::from_bytes(b"example.com"));
}

#[test]
fn ipv6_text_forms() {
    let cases: [(&str, [u16; 8]); 10] = [
        ("::", [0, 0, 0, 0, 0, 0, 0, 0]),
        ("::1", [0, 0, 0, 0, 0, 0, 0, 1]),
        ("1::", [1, 0, 0, 0, 0, 0, 0, 0]),
        ("1:2:3:4:5:6:7::", [1, 2, 3, 4, 5, 6, 7, 0]),
        ("::2:3:4:5:6:7:8", [0, 2, 3, 4, 5, 6, 7, 8]),
        ("fe80::1:2", [0xfe80, 0, 0, 0, 0, 0, 1, 2]),
        ("FFFF::abcd", [0xffff, 0, 0, 0, 0, 0, 0, 0xabcd]),
        ("::ffff:192.168.0.1", [0, 0, 0, 0, 0, 0xffff, 0xc0a8, 0x0001]),
        ("1:2:3:4:5:6:1.2.3.4", [1, 2, 3, 4, 5, 6, 0x0102, 0x0304]),
        ("64:ff9b::10.0.0.1", [0x64, 0xff9b, 0, 0, 0, 0, 0x0a00, 0x0001]),
    ];
    for (text, groups) in cases {
        let bracketed = format!("[{}]", text);
        assert_eq!(Ok(ipv6(groups)), Host::from_bytes(bracketed.as_bytes()), "{}", text);
    }
}

#[test]
fn invalid_ipv6_forms_are_bad_requests() {
    for text in [
        "",
        ":",
        ":::",
        "1:2:3:4:5:6:7:8:9",
        "1:2:3:4:5:6:7",
        "1::2::3",
        "12345::",
        "1:2:3:4:5:6:7:1.2.3.4",
        "::1.2.3",
        "g::",
        "1:2:3:4:5:6:7:8::",
        "::01.2.3.4",
    ] {
        let bracketed = format!("[{}]", text);
        assert_is_bad_request(Host::from_bytes(bracketed.as_bytes()));
    }
}

#[test]
fn ipv4_text_forms() {
    let cases: [(&str, [u8; 4]); 4] = [
        ("0.0.0.0", [0, 0, 0, 0]),
        ("255.255.255.255", [255, 255, 255, 255]),
        ("10.0.0.1", [10, 0, 0, 1]),
        ("192.168.100.200", [192, 168, 100, 200]),
    ];
    for (text, octets) in cases {
        assert_eq!(Ok(ipv4(octets)), Host::from_bytes(text.as_bytes()), "{}", text);
    }
}

#[test]
fn numeric_names_that_are_not_ipv4_are_domains() {
    for text in ["01.2.3.4", "256.1.1.1", "1.2.3", "1.2.3.4.5", "1234.1.1.1"] {
        assert_eq!(
            Ok(Host::Domain(text.as_bytes().to_vec())),
            Host::from_bytes(text.as_bytes()),
            "{}",
            text
        );
    }
}

#[test]
fn ip_address_reads_either_family() {
    assert_eq!(Some(IpAddress::V4(127, 0, 0, 1)), IpAddress::from_bytes(b"127.0.0.1"));
    assert_eq!(Some(IpAddress::V6(0, 0, 0, 0, 0, 0, 0, 1)), IpAddress::from_bytes(b"::1"));
    assert_eq!(None, IpAddress::from_bytes(b"[::1]"));
    assert_eq!(None, IpAddress::from_bytes(b"localhost"));
}
