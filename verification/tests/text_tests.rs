use trae_register::text::{
    escape_double_quotes, has_char, is_blank, is_whitespace_char, prefix_before, push_decimal,
};

fn decimal(n: u64) -> String {
    let mut s = String::new();
    push_decimal(&mut s, n);
    s
}

#[test]
fn decimal_renders_without_leading_zeros() {
    assert_eq!(decimal(0), "0");
    assert_eq!(decimal(7), "7");
    assert_eq!(decimal(10), "10");
    assert_eq!(decimal(65535), "65535");
    assert_eq!(decimal(1234567890), "1234567890");
    assert_eq!(decimal(u64::MAX), u64::MAX.to_string());
}

#[test]
fn decimal_appends_to_existing_text() {
    let mut s = String::from("port ");
    push_decimal(&mut s, 42);
    assert_eq!(s, "port 42");
}

#[test]
fn escape_puts_backslash_before_quotes() {
    assert_eq!(escape_double_quotes("a\"b"), "a\\\"b");
    assert_eq!(escape_double_quotes("\"\""), "\\\"\\\"");
    assert_eq!(escape_double_quotes(""), "");
}

#[test]
fn escape_keeps_quote_free_text() {
    assert_eq!(escape_double_quotes("abc@d.e"), "abc@d.e");
    assert_eq!(escape_double_quotes("中文 \\ x"), "中文 \\ x");
}

#[test]
fn escaped_quotes_follow_backslash() {
    let e = escape_double_quotes("x\"y\"\"z");
    let chars: Vec<char> = e.chars().collect();
    for i in 0..chars.len() {
        if chars[i] == '"' {
            assert!(i > 0 && chars[i - 1] == '\\');
        }
    }
}

#[test]
fn prefix_before_drops_query() {
    assert_eq!(prefix_before("https://x.y/a?b=c?d", '?'), "https://x.y/a");
    assert_eq!(prefix_before("https://x.y/a", '?'), "https://x.y/a");
    assert_eq!(prefix_before("?only", '?'), "");
    assert_eq!(prefix_before("", '?'), "");
    assert_eq!(prefix_before("ä?ö", '?'), "ä");
}

#[test]
fn has_char_finds_characters() {
    assert!(has_char("a@b", '@'));
    assert!(!has_char("ab", '@'));
    assert!(!has_char("", '*'));
}

#[test]
fn whitespace_follows_unicode() {
    for c in ['\t', '\n', '\u{b}', '\u{c}', '\r', ' ', '\u{85}', '\u{a0}', '\u{1680}', '\u{2000}',
        '\u{200a}', '\u{2028}', '\u{2029}', '\u{202f}', '\u{205f}', '\u{3000}'] {
        assert!(is_whitespace_char(c), "{:?}", c);
        assert_eq!(is_whitespace_char(c), c.is_whitespace());
    }
    for c in ['a', '\u{200b}', '\u{feff}', '0', '\u{180e}'] {
        assert!(!is_whitespace_char(c), "{:?}", c);
        assert_eq!(is_whitespace_char(c), c.is_whitespace());
    }
}

#[test]
fn blank_means_trim_is_empty() {
    for s in ["", "   ", " \t\n", "\u{3000}", " a ", "a", "\u{200b}"] {
        assert_eq!(is_blank(s), s.trim().is_empty(), "{:?}", s);
    }
}
