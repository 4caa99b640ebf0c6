use arctracker_sync::numerals::{bool_text, parse_u64, to_decimal, to_signed_decimal};
use arctracker_sync::text::{
    eq_ignore_ascii_case, is_white_space, joined, lines_of, replaced_all, split_on, starts_with,
    strip_prefix, strip_suffix_or_same, to_lower, trimmed, trimmed_symbols, words_of,
};

#[test]
fn white_space_is_that_of_unicode() {
    for n in 0..=0x10ffffu32 {
        if let Some(c) = char::from_u32(n) {
            assert_eq!(is_white_space(c), c.is_whitespace(), "{n:#x}");
        }
    }
}

#[test]
fn text_is_handled_as_std_does() {
    let texts = ["", " ", "a", " a b ", "a,b,,c", "A-Z\u{a0}é", "x\r\ny\n\nz", "\n", "a\r", "(Bearer):"];
    for text in texts {
        assert_eq!(trimmed(text), text.trim());
        assert_eq!(to_lower(text), text.to_ascii_lowercase());
        assert_eq!(split_on(text, ','), text.split(',').collect::<Vec<_>>());
        assert_eq!(lines_of(text), text.lines().collect::<Vec<_>>());
        assert_eq!(words_of(text), text.split_whitespace().collect::<Vec<_>>());
        assert_eq!(replaced_all(text, "a", "bb"), text.replace("a", "bb"));
        assert_eq!(starts_with(text, "a"), text.starts_with("a"));
        assert_eq!(strip_prefix(text, "a").as_deref(), text.strip_prefix("a"));
        assert_eq!(
            trimmed_symbols(text),
            text.trim_matches(|c: char| !c.is_ascii_alphanumeric())
        );
        assert_eq!(eq_ignore_ascii_case(text, "A"), text.eq_ignore_ascii_case("A"));
    }
    assert_eq!(strip_suffix_or_same("a.exe", ".exe"), "a");
    assert_eq!(strip_suffix_or_same("a", ".exe"), "a");
    let parts = vec!["a".to_string(), "b".to_string()];
    assert_eq!(joined(&parts, ", "), "a, b");
    assert_eq!(joined(&Vec::new(), ", "), "");
}

#[test]
fn numbers_are_written_and_read() {
    for n in [0u64, 7, 10, 1808500, u64::MAX] {
        assert_eq!(to_decimal(n), n.to_string());
        assert_eq!(parse_u64(&to_decimal(n), 10, u64::MAX), Some(n));
    }
    for n in [0i64, -1, 42, i64::MIN, i64::MAX] {
        assert_eq!(to_signed_decimal(n), n.to_string());
    }
    assert_eq!(parse_u64("+12", 10, 100), Some(12));
    assert_eq!(parse_u64("-1", 10, 100), None);
    assert_eq!(parse_u64("", 10, 100), None);
    assert_eq!(parse_u64("+", 10, 100), None);
    assert_eq!(parse_u64("101", 10, 100), None);
    assert_eq!(parse_u64("0000000000002000", 16, u64::MAX), Some(0x2000));
    assert_eq!(parse_u64("fG", 16, u64::MAX), None);
    assert_eq!(parse_u64("10000000000000000", 16, u64::MAX), None);
    assert_eq!(bool_text(true), "true");
    assert_eq!(bool_text(false), "false");
}
