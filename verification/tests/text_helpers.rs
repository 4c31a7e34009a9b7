use discord_strive::text::{
    decimal_text, is_white_space_char, join_lines, parse_flag, prepend_errors, text_eq, trim_white_space, truncate_to_chars,
};

fn strings(items: &[&str]) -> Vec<String> {
    items.iter().map(|s| s.to_string()).collect()
}

#[test]
fn decimal_text_writes_numbers() {
    assert_eq!(decimal_text(0), "0");
    assert_eq!(decimal_text(7), "7");
    assert_eq!(decimal_text(10), "10");
    assert_eq!(decimal_text(2000), "2000");
    assert_eq!(decimal_text(u64::MAX), u64::MAX.to_string());
}

#[test]
fn prepend_errors_without_errors_keeps_text() {
    assert_eq!(prepend_errors(&[], "hello"), "hello");
}

#[test]
fn prepend_errors_puts_each_error_on_a_line() {
    let errors = strings(&["first", "second"]);
    assert_eq!(prepend_errors(&errors, "answer"), "first\nsecond\n\nanswer");
}

#[test]
fn join_lines_joins_with_newlines() {
    assert_eq!(join_lines(&strings(&[])), "");
    assert_eq!(join_lines(&strings(&["a"])), "a");
    assert_eq!(join_lines(&strings(&["a", "b", "c"])), "a\nb\nc");
}

#[test]
fn truncate_counts_characters_not_bytes() {
    assert_eq!(truncate_to_chars("héllo wörld", 4), "héll");
    assert_eq!(truncate_to_chars("日本語テキスト", 3), "日本語");
    assert_eq!(truncate_to_chars("short", 10), "short");
    assert_eq!(truncate_to_chars("exact", 5), "exact");
    assert_eq!(truncate_to_chars("abc", 0), "");
}

#[test]
fn truncate_twice_is_truncate_once() {
    let s = "a😀b😀c😀d";
    assert_eq!(truncate_to_chars(truncate_to_chars(s, 5), 3), truncate_to_chars(s, 3));
    assert_eq!(truncate_to_chars(truncate_to_chars(s, 3), 5), truncate_to_chars(s, 3));
}

#[test]
fn parse_flag_finds_value_after_flag() {
    let args = strings(&["--title", "My Doc", "--other", "x"]);
    assert_eq!(parse_flag(&args, "--title"), Some("My Doc".to_string()));
    assert_eq!(parse_flag(&args, "--other"), Some("x".to_string()));
}

#[test]
fn parse_flag_absent_or_last_is_none() {
    let args = strings(&["a", "b", "--title"]);
    assert_eq!(parse_flag(&args, "--title"), None);
    assert_eq!(parse_flag(&args, "--missing"), None);
    assert_eq!(parse_flag(&[], "--title"), None);
}

#[test]
fn parse_flag_uses_first_occurrence() {
    let args = strings(&["--title", "one", "--title", "two"]);
    assert_eq!(parse_flag(&args, "--title"), Some("one".to_string()));
}

#[test]
fn text_eq_compares_characters() {
    assert!(text_eq("user", "user"));
    assert!(!text_eq("user", "User"));
    assert!(!text_eq("user", "users"));
}

#[test]
fn trim_removes_unicode_white_space() {
    assert_eq!(trim_white_space("  abc \n"), "abc");
    assert_eq!(trim_white_space("\u{3000}\u{a0}x y\u{2028}"), "x y");
    assert_eq!(trim_white_space(" \t "), "");
    assert_eq!(trim_white_space("abc"), "abc");
    assert_eq!(trim_white_space(""), "");
}

#[test]
fn white_space_chars_agree_with_std() {
    for u in 0u32..0x3100 {
        if let Some(c) = char::from_u32(u) {
            assert_eq!(is_white_space_char(c), c.is_whitespace(), "{:x}", u);
        }
    }
}
