use quickrjs::text::{decode_text, find_nul};
use quickrjs::NativeString;

#[test]
fn find_nul_reports_the_first_zero() {
    assert_eq!(find_nul(b"ab\0cd\0"), Some(2));
    assert_eq!(find_nul(b"\0"), Some(0));
    assert_eq!(find_nul(b"abc\0"), Some(3));
}

#[test]
fn find_nul_finds_nothing_in_clean_bytes() {
    assert_eq!(find_nul(b""), None);
    assert_eq!(find_nul(b"no zero here"), None);
    assert_eq!(find_nul(&[0xFF, 0x01, 0x80]), None);
}

#[test]
fn native_string_appends_one_terminator() {
    let text = NativeString::new(b"hello".to_vec()).unwrap();
    assert_eq!(text.as_bytes_with_nul(), b"hello\0");
    let empty = NativeString::new(Vec::new()).unwrap();
    assert_eq!(empty.as_bytes_with_nul(), b"\0");
}

#[test]
fn native_string_keeps_bytes_that_are_not_text() {
    let text = NativeString::new(vec![0xFF, 0xFE]).unwrap();
    assert_eq!(text.as_bytes_with_nul(), &[0xFF, 0xFE, 0x00]);
}

#[test]
fn native_string_refuses_inner_zero() {
    let err = NativeString::new(b"he\0llo".to_vec()).unwrap_err();
    assert_eq!(err.nul_position(), 2);
    assert_eq!(err.into_vec(), b"he\0llo".to_vec());
}

#[test]
fn native_string_refuses_trailing_zero() {
    let err = NativeString::new(b"hello\0".to_vec()).unwrap_err();
    assert_eq!(err.nul_position(), 5);
}

#[test]
fn decode_text_reads_valid_utf8() {
    assert_eq!(decode_text(b"plain").unwrap(), "plain");
    assert_eq!(decode_text("gr\u{fc}\u{df}e \u{1F600}".as_bytes()).unwrap(), "gr\u{fc}\u{df}e \u{1F600}");
    assert_eq!(decode_text(b"").unwrap(), "");
    assert_eq!(decode_text(b"a\0b").unwrap(), "a\0b");
}

#[test]
fn decode_text_reports_an_unexpected_byte() {
    let err = decode_text(&[b'a', b'b', 0xFF, b'c']).unwrap_err();
    assert_eq!(err.valid_up_to(), 2);
    assert_eq!(err.error_len(), Some(1));
}

#[test]
fn decode_text_reports_a_broken_sequence() {
    // A three-byte lead, one continuation byte, then an ASCII byte.
    let err = decode_text(&[b'a', 0xE2, 0x82, b'z']).unwrap_err();
    assert_eq!(err.valid_up_to(), 1);
    assert_eq!(err.error_len(), Some(2));
}

#[test]
fn decode_text_reports_truncated_input() {
    let err = decode_text(&[b'a', 0xE2, 0x82]).unwrap_err();
    assert_eq!(err.valid_up_to(), 1);
    assert_eq!(err.error_len(), None);
}

#[test]
fn decode_text_reports_failure_at_the_start() {
    let err = decode_text(&[0x80]).unwrap_err();
    assert_eq!(err.valid_up_to(), 0);
    assert_eq!(err.error_len(), Some(1));
}
