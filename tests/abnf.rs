use ramus::abnf::{
    parse_hex_dig, parse_hex_u16, parse_hex_u8, parse_pct_encoded_ext, parse_reg_name, PctClass,
};
use ramus::utils::{split_at_next, split_at_next_space};

#[test]
fn utils_split_at_first_element_empty_left_and_right_with_rest() {
    let bytes = b"@Hello";
    let (left, right) = split_at_next(bytes, b'@').expect("contains '@'");
    assert!(left.is_empty());
    assert_eq!(&bytes[1..], right);
}

#[test]
fn utils_split_at_last_element_prefix_left_and_empty_right() {
    let bytes = b"spaceattheendb";
    let (left, right) = split_at_next(bytes, b'b').expect("contains 'b'");
    assert_eq!(b"spaceattheend", left);
    assert!(right.is_empty());
}

#[test]
fn utils_excludes_the_element_from_left_and_right() {
    let bytes = b"Hello, World";
    let (left, right) = split_at_next_space(bytes).unwrap();
    assert_eq!(b"Hello,", left);
    assert_eq!(b"World", right);
}

#[test]
fn utils_no_next_element_is_none() {
    assert!(split_at_next(b"baaaaaaaaaaaaaaaaa", b'$').is_none());
}

#[test]
fn mod_split_at_first_element_empty_left_and_right_with_rest() {
    let bytes = b"@Hello";
    let (left, right) = split_at_next(bytes, b'@').expect("contains '@'");
    assert!(left.is_empty());
    assert_eq!(&bytes[1..], right);
}

#[test]
fn mod_split_at_last_element_prefix_left_and_empty_right() {
    let bytes = b"spaceattheendb";
    let (left, right) = split_at_next(bytes, b'b').expect("contains 'b'");
    assert_eq!(b"spaceattheend", left);
    assert!(right.is_empty());
}

#[test]
fn mod_excludes_the_element_from_left_and_right() {
    let bytes = b"Hello, World";
    let (left, right) = split_at_next_space(bytes).unwrap();
    assert_eq!(b"Hello,", left);
    assert_eq!(b"World", right);
}

#[test]
fn mod_no_next_element_is_none() {
    assert!(split_at_next(b"baaaaaaaaaaaaaaaaa", b'$').is_none());
}

#[test]
fn parse_non_hex_dig_should_be_none() {
    assert!(parse_hex_dig(b'@').is_none());
    assert!(parse_hex_dig(b'K').is_none());
    // hex dig is only capital
    assert!(parse_hex_dig(b'b').is_none());
    // 0x prefix is not accepted
    assert!(parse_hex_dig(b'x').is_none());
}

#[test]
fn valid_hex_dig_values() {
    for digit in 0..10 {
        assert_eq!(Some(digit), parse_hex_dig(b'0' + digit));
    }
    for letter in 0..6 {
        assert_eq!(Some(letter + 10), parse_hex_dig(b'A' + letter));
    }
}

#[test]
fn empty_slice_cannot_be_parsed_as_hex_u8() {
    assert!(parse_hex_u8(&[]).is_none());
}

#[test]
fn invalid_hex_dig_prefix_prevents_parsing_hex() {
    assert!(parse_hex_u8(b"@1").is_none());
    // only capital ABCDEF is a valid HEXDIG
    assert!(parse_hex_u8(b"a1").is_none());
}

#[test]
fn multiple_hex_digs_can_be_parsed_upto_nibble_limit_of_uint_type() {
    // u8 has 2 nibbles
    assert_eq!(Some((0xa, [].as_ref())), parse_hex_u8(b"A"));
    assert_eq!(Some((0x14, [].as_ref())), parse_hex_u8(b"14"));
    assert_eq!(Some((0xff, b"1".as_ref())), parse_hex_u8(b"FF1"));

    // u16 has 4 nibbles
    assert_eq!(Some((0xa, [].as_ref())), parse_hex_u16(b"A"));
    assert_eq!(Some((0x14, [].as_ref())), parse_hex_u16(b"14"));
    assert_eq!(Some((0xff1, [].as_ref())), parse_hex_u16(b"FF1"));
    assert_eq!(Some((0xb1f8, [].as_ref())), parse_hex_u16(b"B1F8"));
    assert_eq!(Some((0xaaff, b"A".as_ref())), parse_hex_u16(b"AAFFA"));
}

#[test]
fn single_percent_is_not_a_valid_pct_encoded() {
    assert!(parse_pct_encoded_ext(b"%", PctClass::RegName).is_none());
    assert!(parse_pct_encoded_ext(b"%", PctClass::QueryOrFragment).is_none());
}

#[test]
fn single_percent_and_hex_dig_is_not_a_valid_pct_encoded() {
    assert!(parse_pct_encoded_ext(b"%1", PctClass::RegName).is_none());
}

#[test]
fn valid_pct_encoded_values() {
    assert_eq!(Some(b"%1A".to_vec()), parse_pct_encoded_ext(b"%1A", PctClass::RegName));
    assert_eq!(Some(b"%1A%F6".to_vec()), parse_pct_encoded_ext(b"%1A%F6", PctClass::RegName));
    assert_eq!(Some(b"%FF%FF".to_vec()), parse_pct_encoded_ext(b"%FF%FF", PctClass::RegName));
}

#[test]
fn predicate_with_pct_encoded_does_not_allow_octets_within_pct_encoded_value() {
    // ':' may stand before or after a triplet, never inside one
    assert_eq!(None, parse_pct_encoded_ext(b"%F:F", PctClass::UserInfo));
    assert!(parse_pct_encoded_ext(b"%F:F", PctClass::UserInfo).is_none())
}

#[test]
fn predicate_with_pct_encoded_allow_interleaving_octets() {
    assert_eq!(Some(b"%B7@%54".to_vec()), parse_pct_encoded_ext(b"%B7@%54", PctClass::PChar));
}

#[test]
fn parsing_reg_name_stops_at_invalid_char() {
    assert_eq!(Some(b"hello".to_vec()), parse_reg_name(b"hello:there"));
}

#[test]
fn valid_reg_name_examples() {
    assert_eq!(
        Some(b"h12*$~;%FF33%01".to_vec()),
        parse_reg_name(b"h12*$~;%FF33%01@ignore_this_part")
    );
}

#[test]
fn non_hex_dig_is_none_on_parse() {
    // symbol
    assert!(parse_hex_dig(b'@').is_none());
    // letter greater than 'F'
    assert!(parse_hex_dig(b'G').is_none());
    // not capital letter is not acceptable
    assert!(parse_hex_dig(b'a').is_none());
}

#[test]
fn all_valid_hex_digs() {
    for (i, digit) in (b'0'..=b'9').enumerate() {
        assert_eq!(Some(i as u8), parse_hex_dig(digit));
    }
    for (i, letter) in (b'A'..=b'F').enumerate().map(|(i, l)| (i + 10, l)) {
        assert_eq!(Some(i as u8), parse_hex_dig(letter));
    }
}

#[test]
fn lower_case_pct_encoding_is_rejected() {
    assert!(parse_pct_encoded_ext(b"%1a", PctClass::RegName).is_none());
    assert!(parse_pct_encoded_ext(b"%fF", PctClass::PChar).is_none());
}

#[test]
fn pct_scan_stops_at_first_byte_outside_the_class() {
    assert_eq!(Some(b"a/b".to_vec()), parse_pct_encoded_ext(b"a/b#c", PctClass::PathSegments));
    assert_eq!(Some(b"a".to_vec()), parse_pct_encoded_ext(b"a/b#c", PctClass::PChar));
    assert_eq!(Some(b"a/b?c".to_vec()), parse_pct_encoded_ext(b"a/b?c#", PctClass::QueryOrFragment));
}
