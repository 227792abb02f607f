use codex_session_kit::text::{
    after_first, decimal, is_whitespace, join, replace_all, replace_first, same_text,
    signed_decimal, strip_prefix, trim,
};

#[test]
fn whitespace_is_what_unicode_says() {
    for code in 0..=0x10ffff_u32 {
        if let Some(c) = char::from_u32(code) {
            assert_eq!(is_whitespace(c), c.is_whitespace(), "{code:x}");
        }
    }
}

#[test]
fn trimming_takes_whitespace_off_both_ends() {
    for text in ["", " ", "\n\t ", "a", " a b ", "\u{3000}\u{e4} \u{85}", "a\u{a0}"] {
        assert_eq!(trim(text), text.trim());
    }
}

#[test]
fn replacing_goes_left_to_right() {
    for (text, from, to) in [
        ("aaaa", "aa", "b"),
        ("aaa", "aa", "b"),
        ("abc", "", "-"),
        ("", "", "-"),
        ("", "a", "-"),
        ("x/1 y/1 ", "/1 ", "/2 "),
        ("\u{e4}b\u{e4}", "\u{e4}", ""),
        ("abc", "d", "e"),
        ("ab", "abc", "e"),
        ("aXa", "X", "XX"),
    ] {
        assert_eq!(replace_all(text, from, to), text.replace(from, to));
        assert_eq!(replace_first(text, from, to), text.replacen(from, to, 1));
    }
}

#[test]
fn splitting_off_a_prefix_or_a_head() {
    assert_eq!(strip_prefix("rust-v1", "rust-v"), Some("1"));
    assert_eq!(strip_prefix("rust-v", "rust-v"), Some(""));
    assert_eq!(strip_prefix("rust", "rust-v"), None);
    assert_eq!(after_first("a/b/c", '/'), Some("b/c"));
    assert_eq!(after_first("/", '/'), Some(""));
    assert_eq!(after_first("abc", '/'), None);
}

#[test]
fn joining_puts_the_separator_between() {
    let parts = |list: &[&str]| list.iter().map(|s| s.to_string()).collect::<Vec<_>>();
    assert_eq!(join(&parts(&[]), " "), "");
    assert_eq!(join(&parts(&["a"]), " "), "a");
    assert_eq!(join(&parts(&["a", "", "b"]), ", "), "a, , b");
}

#[test]
fn numbers_in_decimal() {
    for n in [0, 9, 10, 99, 100, 1_234_567_890, u64::MAX] {
        assert_eq!(decimal(n), n.to_string());
    }
    for n in [0, 7, -7, 10, -10, i32::MAX, i32::MIN] {
        assert_eq!(signed_decimal(n), n.to_string());
    }
}

#[test]
fn texts_compare_by_their_characters() {
    assert!(same_text("", ""));
    assert!(same_text("\u{e4}", "\u{e4}"));
    assert!(!same_text("a", "A"));
}
