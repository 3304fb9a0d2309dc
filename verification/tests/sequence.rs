use osc_color_query::decimal::{append_decimal, push_decimal};
use osc_color_query::sequence::{encode_query, ESC};

fn digits_of(n: u8) -> Vec<u8> {
    let mut buf = Vec::new();
    push_decimal(&mut buf, n);
    buf
}

#[test]
fn foreground_sequence_is_exact() {
    assert_eq!(encode_query(10), b"\x1B]10;?\x1B\\".to_vec());
}

#[test]
fn background_sequence_is_exact() {
    assert_eq!(encode_query(11), b"\x1B]11;?\x1B\\".to_vec());
}

#[test]
fn sequence_byte_by_byte() {
    assert_eq!(encode_query(10), vec![0x1B, 0x5D, 0x31, 0x30, 0x3B, 0x3F, 0x1B, 0x5C]);
    assert_eq!(encode_query(11), vec![0x1B, 0x5D, 0x31, 0x31, 0x3B, 0x3F, 0x1B, 0x5C]);
}

#[test]
fn sequence_has_no_trailing_newline() {
    for slot in [10u8, 11u8] {
        let bytes = encode_query(slot);
        assert_eq!(bytes.len(), 8);
        assert_eq!(bytes[0], ESC);
        assert_eq!(bytes[bytes.len() - 2], ESC);
        assert_eq!(bytes[bytes.len() - 1], b'\\');
        assert!(!bytes.contains(&b'\n'));
    }
}

#[test]
fn sequence_matches_formatted_text_for_every_slot() {
    for slot in 0..=u8::MAX {
        let expected = format!("\x1B]{};?\x1B\\", slot).into_bytes();
        assert_eq!(encode_query(slot), expected);
    }
}

#[test]
fn sequence_is_built_afresh_each_time() {
    let first = encode_query(10);
    let second = encode_query(10);
    assert_eq!(first, second);
}

#[test]
fn decimal_of_one_digit() {
    assert_eq!(digits_of(0), b"0".to_vec());
    assert_eq!(digits_of(7), b"7".to_vec());
    assert_eq!(digits_of(9), b"9".to_vec());
}

#[test]
fn decimal_of_two_digits() {
    assert_eq!(digits_of(10), b"10".to_vec());
    assert_eq!(digits_of(11), b"11".to_vec());
    assert_eq!(digits_of(99), b"99".to_vec());
}

#[test]
fn decimal_of_three_digits() {
    assert_eq!(digits_of(100), b"100".to_vec());
    assert_eq!(digits_of(109), b"109".to_vec());
    assert_eq!(digits_of(255), b"255".to_vec());
}

#[test]
fn decimal_is_appended_after_what_is_there() {
    let mut buf = vec![b'#'];
    push_decimal(&mut buf, 42);
    assert_eq!(buf, b"#42".to_vec());
    let mut text = String::from("slot ");
    append_decimal(&mut text, 205);
    assert_eq!(text, "slot 205");
}

#[test]
fn decimal_text_agrees_with_bytes_for_every_number() {
    for n in 0..=u8::MAX {
        let mut text = String::new();
        append_decimal(&mut text, n);
        assert_eq!(text, format!("{}", n));
        assert_eq!(text.into_bytes(), digits_of(n));
    }
}
