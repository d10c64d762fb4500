use static_files::decode::{check_escapes, hex_digit, percent_decode, DecodeError};

#[test]
fn decodes_escapes() {
    assert_eq!(percent_decode("foo%20bar%3f"), Ok("foo bar?".to_string()));
    assert_eq!(percent_decode("a%2Fb"), Ok("a/b".to_string()));
    assert_eq!(percent_decode("a%2fb"), Ok("a/b".to_string()));
    assert_eq!(percent_decode("%41%42%43"), Ok("ABC".to_string()));
}

#[test]
fn text_without_escapes_is_unchanged() {
    assert_eq!(percent_decode("index.html"), Ok("index.html".to_string()));
    assert_eq!(percent_decode("a/b.txt"), Ok("a/b.txt".to_string()));
    assert_eq!(percent_decode(""), Ok(String::new()));
}

#[test]
fn encoded_parent_dir_decodes_to_dots() {
    assert_eq!(percent_decode("%2e%2e/secret.txt"), Ok("../secret.txt".to_string()));
}

#[test]
fn escapes_are_decoded_once() {
    assert_eq!(percent_decode("%2541"), Ok("%41".to_string()));
}

#[test]
fn decodes_multi_byte_text() {
    assert_eq!(percent_decode("caf%C3%A9"), Ok("caf\u{e9}".to_string()));
    assert_eq!(percent_decode("%e2%82%ac"), Ok("\u{20ac}".to_string()));
    assert_eq!(percent_decode("caf\u{e9}"), Ok("caf\u{e9}".to_string()));
}

#[test]
fn malformed_escape_fails() {
    assert_eq!(percent_decode("%zz"), Err(DecodeError::MalformedEscape));
    assert_eq!(percent_decode("%"), Err(DecodeError::MalformedEscape));
    assert_eq!(percent_decode("abc%2"), Err(DecodeError::MalformedEscape));
    assert_eq!(percent_decode("%4g"), Err(DecodeError::MalformedEscape));
    assert_eq!(percent_decode("%%41"), Err(DecodeError::MalformedEscape));
    assert_eq!(percent_decode("ok%20then%"), Err(DecodeError::MalformedEscape));
}

#[test]
fn non_utf8_bytes_fail() {
    assert_eq!(percent_decode("%ff"), Err(DecodeError::InvalidUtf8));
    assert_eq!(percent_decode("a%C3"), Err(DecodeError::InvalidUtf8));
    assert_eq!(percent_decode("%c0%af"), Err(DecodeError::InvalidUtf8));
    assert_eq!(percent_decode("%ed%a0%80"), Err(DecodeError::InvalidUtf8));
}

#[test]
fn malformed_escape_is_reported_before_bad_utf8() {
    assert_eq!(percent_decode("%ff%zz"), Err(DecodeError::MalformedEscape));
}

#[test]
fn check_escapes_on_bytes() {
    assert!(check_escapes(b""));
    assert!(check_escapes(b"plain"));
    assert!(check_escapes(b"%00%ff%Aa"));
    assert!(!check_escapes(b"%"));
    assert!(!check_escapes(b"%1"));
    assert!(!check_escapes(b"%1x"));
    assert!(!check_escapes(b"%x1"));
    assert!(!check_escapes(b"a%20b%"));
}

#[test]
fn hex_digits() {
    for b in b"0123456789abcdefABCDEF".iter() {
        assert!(hex_digit(*b));
    }
    for b in b"gG/:@`zZ% ".iter() {
        assert!(!hex_digit(*b));
    }
    assert!(!hex_digit(0));
    assert!(!hex_digit(255));
}
