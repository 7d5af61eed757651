use pigeon::bytes::{copy_bytes, u64_from_be, u64_to_be};
use pigeon::hex::{decode_hex, decode_hex_bytes, encode_hex, InvalidHex};
use pigeon::names::{load_name, name_file_contents, parse_name, NameFileError};
use pigeon::text::{trim, BoundedString};

#[test]
fn hex_encode_is_lower_case_high_nibble_first() {
    assert_eq!(encode_hex(&[0xbe, 0xef, 0x01]), "beef01");
    assert_eq!(encode_hex(&[]), "");
}

#[test]
fn hex_decode_accepts_both_cases() {
    assert_eq!(decode_hex("BEEF").unwrap(), vec![0xbe, 0xef]);
    assert_eq!(decode_hex("beEf").unwrap(), vec![0xbe, 0xef]);
    assert_eq!(decode_hex_bytes(b"00ff").unwrap(), vec![0x00, 0xff]);
}

#[test]
fn hex_decode_refuses_odd_length_and_bad_digits() {
    assert_eq!(decode_hex("abc"), Err(InvalidHex));
    assert_eq!(decode_hex("zz"), Err(InvalidHex));
    assert_eq!(decode_hex(" ab"), Err(InvalidHex));
}

#[test]
fn hex_round_trip() {
    let data: Vec<u8> = (0u8..=255).collect();
    assert_eq!(decode_hex(&encode_hex(&data)).unwrap(), data);
}

#[test]
fn trim_removes_unicode_whitespace_at_both_ends() {
    assert_eq!(trim("  bob \n"), "bob");
    assert_eq!(trim("\u{3000}x y\t"), "x y");
    assert_eq!(trim("   "), "");
    assert_eq!(trim(""), "");
    assert_eq!(trim("ab"), "ab");
}

#[test]
fn parse_name_trims_and_checks_length() {
    assert_eq!(parse_name("  alice \n").unwrap().as_str(), "alice");
    let exact = "a".repeat(32);
    assert_eq!(parse_name(&exact).unwrap().as_str(), exact);
    assert!(parse_name(&"a".repeat(33)).is_err());
    // 16 two-byte characters fill 32 bytes, 17 do not fit.
    assert!(parse_name(&"é".repeat(16)).is_ok());
    assert!(parse_name(&"é".repeat(17)).is_err());
}

#[test]
fn load_name_reads_a_name_file() {
    assert_eq!(load_name(b"bob\n").unwrap().as_str(), "bob");
    assert_eq!(load_name(&[0xff, 0x41]).unwrap_err(), NameFileError::NotUtf8);
    assert_eq!(load_name("x".repeat(40).as_bytes()).unwrap_err(), NameFileError::TooLong);
}

#[test]
fn name_file_round_trip() {
    let name = parse_name(" carol ").unwrap();
    let contents = name_file_contents(&name);
    assert_eq!(contents, b"carol".to_vec());
    assert_eq!(load_name(&contents).unwrap().as_str(), "carol");
}

#[test]
fn bounded_string_capacity() {
    assert!(BoundedString::<4>::from_str("abcd").is_ok());
    assert!(BoundedString::<4>::from_str("abcde").is_err());
    let a = BoundedString::<8>::from_str("hi").unwrap();
    let b = a.duplicate();
    assert!(a.same_text(&b));
    assert_eq!(b.as_bytes(), b"hi");
}

#[test]
fn big_endian_lengths() {
    assert_eq!(u64_to_be(0x0102030405060708), vec![1, 2, 3, 4, 5, 6, 7, 8]);
    assert_eq!(u64_from_be(&[0, 0, 0, 0, 0, 0, 1, 0]), 256);
    assert_eq!(u64_from_be(&u64_to_be(u64::MAX)), u64::MAX);
    assert_eq!(copy_bytes(&[9, 8, 7]), vec![9, 8, 7]);
}

#[test]
fn trimming_twice_changes_nothing_more() {
    for s in ["  a b  ", "\t\n", "x", " \u{2003}y\u{2003} "] {
        assert_eq!(trim(trim(s)), trim(s));
    }
}

#[test]
fn name_file_with_spaces_and_newline_reads_as_the_name() {
    assert_eq!(load_name(b"  alice\n").unwrap().as_str(), "alice");
}
