use identifiers::display::{push_decimal, write_tuple_debug};
use identifiers::text::{char_is_white_space, str_is_blank};
use identifiers::{validate_any, validate_non_blank, validate_non_empty, BlankError, EmptyError};

#[test]
fn whitespace_characters() {
    for c in [
        ' ', '\t', '\n', '\r', '\u{0B}', '\u{0C}', '\u{85}', '\u{A0}', '\u{1680}', '\u{2000}',
        '\u{200A}', '\u{2028}', '\u{2029}', '\u{202F}', '\u{205F}', '\u{3000}',
    ] {
        assert!(char_is_white_space(c), "{:?}", c);
        assert_eq!(char_is_white_space(c), c.is_whitespace());
    }
    for c in ['a', '0', '_', '\u{0}', '\u{8}', '\u{200B}', '\u{FEFF}', '\u{180E}', '\u{2060}'] {
        assert!(!char_is_white_space(c), "{:?}", c);
        assert_eq!(char_is_white_space(c), c.is_whitespace());
    }
}

#[test]
fn whitespace_agrees_with_std_on_every_char() {
    for n in 0..=0x10FFFFu32 {
        if let Some(c) = char::from_u32(n) {
            assert_eq!(char_is_white_space(c), c.is_whitespace(), "{:#x}", n);
        }
    }
}

#[test]
fn blank_is_trim_is_empty() {
    for s in ["", " ", "\t\n", "\u{3000}\u{A0}", " x ", "x", "\u{200B}", " \u{2028}a"] {
        assert_eq!(str_is_blank(s), s.trim().is_empty(), "{:?}", s);
    }
}

#[test]
fn validation_rules() {
    assert_eq!(validate_non_empty(""), Err(EmptyError));
    assert_eq!(validate_non_empty(" "), Ok(()));
    assert_eq!(validate_non_blank(""), Err(BlankError));
    assert_eq!(validate_non_blank("\u{3000}\t"), Err(BlankError));
    assert_eq!(validate_non_blank("\u{200B}"), Ok(()));
    assert_eq!(validate_non_blank(" a "), Ok(()));
    assert!(validate_any("").is_ok());
}

#[test]
fn non_blank_is_stricter_than_non_empty() {
    for s in ["", " ", "a", " a", "\n\n"] {
        if validate_non_blank(s).is_ok() {
            assert!(validate_non_empty(s).is_ok());
        }
    }
}

#[test]
fn error_messages() {
    assert_eq!(EmptyError.message(), "identifier string must not be empty");
    assert_eq!(BlankError.message(), "identifier string must not be blank");
}

#[test]
fn decimal_digits() {
    for n in [0u64, 7, 10, 42, 1000, 1234567890, u64::MAX] {
        let mut s = String::from("n=");
        push_decimal(&mut s, n);
        assert_eq!(s, format!("n={}", n));
    }
}

#[test]
fn tuple_debug_text() {
    assert_eq!(write_tuple_debug("Id", "7"), "Id(7)");
    assert_eq!(write_tuple_debug("", ""), "()");
}
