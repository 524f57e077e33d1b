use chat_services::discord::environment::{ensure_env, missing_env, mongo_settings};
use chat_services::text::{
    chars_of, contains_str, i32_to_text, is_blank, is_white_char, keep_digits, parse_unsigned_text,
    replace_str, starts_with, str_eq, to_ascii_lower, trimmed, u64_to_text, NumberError,
};

#[test]
fn trimming_matches_std() {
    for s in ["", "  ", " a ", "\u{3000}x\u{85}", "\t\n a b \r", "\u{200b}z\u{200b}", "ก ข"] {
        assert_eq!(trimmed(s), s.trim(), "{s:?}");
        assert_eq!(is_blank(s), s.trim().is_empty(), "{s:?}");
    }
    for c in ['\u{1680}', '\u{2000}', '\u{200a}', '\u{202f}', '\u{205f}', 'a', '\u{200b}'] {
        assert_eq!(is_white_char(c), c.is_whitespace(), "{c:?}");
    }
}

#[test]
fn ascii_lowercase_and_prefixes() {
    assert_eq!(to_ascii_lower("AbC-Ü"), "AbC-Ü".to_ascii_lowercase());
    assert!(starts_with("https://x", "https://"));
    assert!(!starts_with("http", "https://"));
    assert!(contains_str("abcabd", "abd"));
    assert!(!contains_str("ab", "abc"));
    assert!(contains_str("x", ""));
    assert!(str_eq("ก", "ก"));
    assert!(!str_eq("a", "ab"));
    assert_eq!(chars_of("กa").len(), 2);
}

#[test]
fn replacing_matches_std() {
    for (s, f, t) in [("aaa", "aa", "b"), ("xyz", "q", "r"), ("abab", "ab", ""), ("a.b.c", ".", "::")] {
        assert_eq!(replace_str(s, f, t), s.replace(f, t));
    }
}

#[test]
fn decimal_text_and_parsing() {
    assert_eq!(u64_to_text(0), "0");
    assert_eq!(u64_to_text(u64::MAX), u64::MAX.to_string());
    assert_eq!(i32_to_text(i32::MIN), i32::MIN.to_string());
    assert_eq!(i32_to_text(-7), "-7");
    for s in ["0", "+12", "007", "65535", "65536", "", "+", "-1", "1 ", "1a"] {
        let ours = parse_unsigned_text(s, 65535).ok();
        let std = s.parse::<u16>().ok().map(u64::from);
        assert_eq!(ours, std, "{s:?}");
    }
    assert_eq!(parse_unsigned_text("", 9), Err(NumberError::Empty));
    assert_eq!(parse_unsigned_text("x", 9), Err(NumberError::InvalidDigit));
    assert_eq!(parse_unsigned_text("10", 9), Err(NumberError::PosOverflow));
    assert_eq!(parse_unsigned_text("99999999999999999999999", u64::MAX), Err(NumberError::PosOverflow));
    assert_eq!(NumberError::Empty.text(), "".parse::<u8>().unwrap_err().to_string());
    assert_eq!(NumberError::InvalidDigit.text(), "x".parse::<u8>().unwrap_err().to_string());
    assert_eq!(NumberError::PosOverflow.text(), "999".parse::<u8>().unwrap_err().to_string());
    // What is written reads back.
    for n in [0u64, 9, 10, 65535] {
        assert_eq!(parse_unsigned_text(&u64_to_text(n), 65535), Ok(n));
    }
    assert_eq!(keep_digits("a1b2ก3"), "123");
}

#[test]
fn environment_checks() {
    assert!(ensure_env(true, true, true).is_ok());
    assert_eq!(ensure_env(false, false, false).unwrap_err(), "ไม่พบ DISCORD_TOKEN ใน environment");
    assert_eq!(ensure_env(true, false, true).unwrap_err(), "ไม่พบ MONGO_URI ใน environment");
    assert_eq!(ensure_env(true, true, false).unwrap_err(), "ไม่พบ MONGO_DB_NAME ใน environment");
    assert_eq!(missing_env("X"), "ไม่พบ X ใน environment");
    let m = mongo_settings(None, None);
    assert_eq!((m.uri.as_str(), m.db_name.as_str()), ("mongodb://localhost:27017", "discord_bot"));
    assert_eq!((m.max_pool_size, m.min_pool_size, m.max_idle_secs, m.server_selection_timeout_secs), (100, 5, 60, 5));
    let m = mongo_settings(Some("mongodb://m".into()), Some("db".into()));
    assert_eq!((m.uri.as_str(), m.db_name.as_str()), ("mongodb://m", "db"));
}
