use campus_auth::base64url::{decode_text, encode_into};
use campus_auth::bytes::{push_all, same_bytes};
use campus_auth::decimal::{read_decimal, write_decimal};
use campus_auth::hex::{read_hex, write_hex};
use campus_auth::oid::ObjectId;

fn base64(data: &[u8]) -> String {
    let mut out = Vec::new();
    encode_into(data, &mut out);
    String::from_utf8(out).unwrap()
}

fn decimal(n: u64) -> String {
    let mut out = Vec::new();
    write_decimal(n, &mut out);
    String::from_utf8(out).unwrap()
}

fn hex(value: u64, width: usize) -> String {
    let mut out = Vec::new();
    write_hex(value, width, &mut out);
    String::from_utf8(out).unwrap()
}

#[test]
fn base64_of_the_standard_vectors() {
    assert_eq!(base64(b""), "");
    assert_eq!(base64(b"f"), "Zg");
    assert_eq!(base64(b"fo"), "Zm8");
    assert_eq!(base64(b"foo"), "Zm9v");
    assert_eq!(base64(b"foob"), "Zm9vYg");
    assert_eq!(base64(b"fooba"), "Zm9vYmE");
    assert_eq!(base64(b"foobar"), "Zm9vYmFy");
}

#[test]
fn base64_uses_the_url_safe_symbols() {
    assert_eq!(base64(&[0xfb, 0xff]), "-_8");
    assert_eq!(base64(&[0xff, 0xff, 0xfe]), "___-");
    assert_eq!(decode_text(b"-_8"), Some(vec![0xfb, 0xff]));
    assert_eq!(decode_text(b"+/8"), None);
}

#[test]
fn base64_appends_to_what_is_there() {
    let mut out = b"x.".to_vec();
    encode_into(b"foo", &mut out);
    assert_eq!(out, b"x.Zm9v".to_vec());
}

#[test]
fn base64_decodes_what_it_encodes() {
    for len in 0..40usize {
        let data: Vec<u8> = (0..len).map(|i| (i * 37 + len * 11) as u8).collect();
        assert_eq!(decode_text(base64(&data).as_bytes()), Some(data));
    }
}

#[test]
fn base64_rejects_what_is_no_text() {
    assert_eq!(decode_text(b"Z"), None);
    assert_eq!(decode_text(b"Zm9vY"), None);
    assert_eq!(decode_text(b"Zm9v!A"), None);
    assert_eq!(decode_text(b"Zg=="), None);
    assert_eq!(decode_text(b"Zm 9v"), None);
}

#[test]
fn base64_rejects_stray_bits_in_the_last_symbol() {
    assert_eq!(decode_text(b"Zg"), Some(b"f".to_vec()));
    assert_eq!(decode_text(b"Zh"), None);
    assert_eq!(decode_text(b"Zm8"), Some(b"fo".to_vec()));
    assert_eq!(decode_text(b"Zm9"), None);
}

#[test]
fn decimal_has_no_leading_zeros() {
    assert_eq!(decimal(0), "0");
    assert_eq!(decimal(7), "7");
    assert_eq!(decimal(10), "10");
    assert_eq!(decimal(2_000_000_000), "2000000000");
    assert_eq!(decimal(u64::MAX), "18446744073709551615");
}

#[test]
fn decimal_reads_its_own_form_only() {
    assert_eq!(read_decimal(b"0"), Some(0));
    assert_eq!(read_decimal(b"2000000000"), Some(2_000_000_000));
    assert_eq!(read_decimal(b"18446744073709551615"), Some(u64::MAX));
    assert_eq!(read_decimal(b""), None);
    assert_eq!(read_decimal(b"007"), None);
    assert_eq!(read_decimal(b"00"), None);
    assert_eq!(read_decimal(b"12a"), None);
    assert_eq!(read_decimal(b"-1"), None);
    assert_eq!(read_decimal(b" 1"), None);
}

#[test]
fn decimal_rejects_what_a_u64_cannot_hold() {
    assert_eq!(read_decimal(b"18446744073709551616"), None);
    assert_eq!(read_decimal(b"99999999999999999999"), None);
    assert_eq!(read_decimal(b"184467440737095516150"), None);
}

#[test]
fn hex_is_lower_case_and_of_fixed_width() {
    assert_eq!(hex(0, 8), "00000000");
    assert_eq!(hex(0xab, 4), "00ab");
    assert_eq!(hex(0x0123_4567_89ab_cdef, 16), "0123456789abcdef");
    assert_eq!(hex(u64::MAX, 16), "ffffffffffffffff");
    assert_eq!(hex(5, 0), "");
}

#[test]
fn hex_drops_digits_above_the_width() {
    assert_eq!(hex(0x1234, 2), "34");
}

#[test]
fn hex_reads_both_cases() {
    assert_eq!(read_hex(b"00ab"), Some(0xab));
    assert_eq!(read_hex(b"00AB"), Some(0xab));
    assert_eq!(read_hex(b"ffffffffffffffff"), Some(u64::MAX));
    assert_eq!(read_hex(b""), Some(0));
    assert_eq!(read_hex(b"12g4"), None);
    assert_eq!(read_hex(b"0x12"), None);
}

#[test]
fn object_id_as_text() {
    let id = ObjectId { timestamp: 0x65f0_12ab, tail: 0x0123_4567_89ab_cdef };
    assert_eq!(id.to_hex(), b"65f012ab0123456789abcdef".to_vec());
    assert_eq!(ObjectId::parse_str(b"65f012ab0123456789abcdef"), Some(id));
    assert_eq!(ObjectId::parse_str(b"65F012AB0123456789ABCDEF"), Some(id));
    let zero = ObjectId { timestamp: 0, tail: 0 };
    assert_eq!(zero.to_hex(), b"000000000000000000000000".to_vec());
}

#[test]
fn object_id_text_round_trip() {
    for (t, l) in [(0u32, 0u64), (1, 1), (u32::MAX, u64::MAX), (0x5f5e_100, 0xdead_beef)] {
        let id = ObjectId { timestamp: t, tail: l };
        assert_eq!(ObjectId::parse_str(&id.to_hex()), Some(id));
    }
}

#[test]
fn object_id_rejects_other_text() {
    assert_eq!(ObjectId::parse_str(b""), None);
    assert_eq!(ObjectId::parse_str(b"65f012ab0123456789abcde"), None);
    assert_eq!(ObjectId::parse_str(b"65f012ab0123456789abcdef0"), None);
    assert_eq!(ObjectId::parse_str(b"65f012ab0123456789abcdeg"), None);
    assert_eq!(ObjectId::parse_str(b"g5f012ab0123456789abcdef"), None);
}

#[test]
fn byte_helpers() {
    let mut out = b"ab".to_vec();
    push_all(&mut out, b"cd");
    assert_eq!(out, b"abcd".to_vec());
    assert!(same_bytes(b"abc", b"abc"));
    assert!(!same_bytes(b"abc", b"abd"));
    assert!(!same_bytes(b"abc", b"ab"));
    assert!(same_bytes(b"", b""));
}
