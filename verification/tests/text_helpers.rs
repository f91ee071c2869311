use fsociety::text::{
    chars_of, contains_text, decimal_text, is_space, push_decimal, push_hex4, push_text,
    same_text, starts_with_text, trim_text,
};

#[test]
fn whitespace_is_unicode_white_space() {
    for c in ['\t', '\n', '\u{0B}', '\u{0C}', '\r', ' ', '\u{85}', '\u{A0}', '\u{1680}', '\u{2000}', '\u{200A}', '\u{2028}', '\u{2029}', '\u{202F}', '\u{205F}', '\u{3000}'] {
        assert!(is_space(c), "{:?}", c);
        assert!(c.is_whitespace());
    }
    for c in ['a', '0', '\u{200B}', '\u{FEFF}', '_', '\u{1F}'] {
        assert!(!is_space(c), "{:?}", c);
        assert_eq!(c.is_whitespace(), false);
    }
}

#[test]
fn trimming_matches_str_trim() {
    for s in ["", "  ", " a ", "a", "\n\ta b\r\n", "\u{3000}x\u{A0}", "x  y"] {
        assert_eq!(trim_text(s), s.trim());
    }
}

#[test]
fn prefixes_and_infixes() {
    assert!(starts_with_text("/send x", "/send "));
    assert!(!starts_with_text("/sen", "/send "));
    assert!(starts_with_text("abc", ""));
    assert!(contains_text("a:b", ":"));
    assert!(contains_text("x127.0.0.1", "127.0.0.1"));
    assert!(!contains_text("127.0.0", "127.0.0.1"));
    assert!(contains_text("", ""));
    assert!(same_text("ab", "ab"));
    assert!(!same_text("ab", "abc"));
}

#[test]
fn numbers_as_text() {
    assert_eq!(decimal_text(0), "0");
    assert_eq!(decimal_text(1024), "1024");
    assert_eq!(decimal_text(u64::MAX), "18446744073709551615");
    let mut s = String::from("n=");
    push_decimal(&mut s, 7);
    push_text(&mut s, ";");
    push_hex4(&mut s, 0xBEEF);
    push_hex4(&mut s, 0x000F);
    assert_eq!(s, "n=7;BEEF000F");
}

#[test]
fn characters_of_a_string() {
    assert_eq!(chars_of("héllo"), vec!['h', 'é', 'l', 'l', 'o']);
}
