use altyazi_uretici::text::{
    decimal_string, eq_ignore_ascii_case, escape_single_quotes, is_blank, is_white_space_char,
    last_line_of, str_eq,
};

#[test]
fn white_space_agrees_with_std() {
    for u in 0u32..0x3100 {
        if let Some(c) = char::from_u32(u) {
            assert_eq!(is_white_space_char(c), c.is_whitespace(), "{:#x}", u);
        }
    }
    assert!(!is_white_space_char('\u{feff}'));
}

#[test]
fn blank_means_trim_is_empty() {
    for s in ["", " ", "\t\r\n", " a ", "\u{3000}", "x"] {
        assert_eq!(is_blank(s), s.trim().is_empty(), "{:?}", s);
    }
}

#[test]
fn last_line_agrees_with_lines() {
    for s in ["", "a", "a\n", "a\nb", "a\r\nb\r\n", "a\n\n", "\n", "\r\n", "x\r", "a\rb", "é\nü"] {
        assert_eq!(last_line_of(s), s.lines().last().unwrap_or(""), "{:?}", s);
    }
}

#[test]
fn quotes_are_doubled() {
    assert_eq!(escape_single_quotes("it's"), "it''s");
    assert_eq!(escape_single_quotes("''"), "''''");
    assert_eq!(escape_single_quotes("plain"), "plain");
    assert_eq!(escape_single_quotes(""), "");
    let s = "C:\\a'b\\ç'";
    assert_eq!(escape_single_quotes(s), s.replace('\'', "''"));
}

#[test]
fn decimal_rendering() {
    for n in [0u64, 7, 10, 99, 100, 1024, 1234567890, u64::MAX] {
        assert_eq!(decimal_string(n), n.to_string());
    }
}

#[test]
fn ascii_case_comparison() {
    assert!(eq_ignore_ascii_case("MP4", "mp4"));
    assert!(eq_ignore_ascii_case("Mp4", "mP4"));
    assert!(!eq_ignore_ascii_case("mp3", "mp4"));
    assert!(!eq_ignore_ascii_case("mp4 ", "mp4"));
    assert!(eq_ignore_ascii_case("ÉA", "Éa"));
    assert!(!eq_ignore_ascii_case("é", "É"));
    assert!(str_eq("en", "en"));
    assert!(!str_eq("en", "e"));
}

#[test]
fn quoting_round_trip() {
    for s in ["a'b''c", "'", "", "no quotes", "'''", "ü'ç"] {
        let escaped = escape_single_quotes(s);
        assert_eq!(escaped.replace("''", "'"), s);
    }
}
