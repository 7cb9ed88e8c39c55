use ollama_controls_api::text::{
    chars_of, decimal_text, is_space, joined, joined3, same_text, skip_leading, trim, without_prefix,
};

#[test]
fn white_space_is_that_of_the_standard_library() {
    for n in 0..=0x10ffffu32 {
        if let Some(c) = char::from_u32(n) {
            assert_eq!(is_space(c), c.is_whitespace(), "U+{:04X}", n);
        }
    }
}

#[test]
fn trim_is_that_of_the_standard_library() {
    for s in [
        "",
        " ",
        "\t\n ",
        "a",
        " a",
        "a ",
        "  a b  ",
        "\u{a0}\u{3000}x\u{2009}",
        "\u{200b}x\u{200b}",
        "\u{fc}\u{1f600} \u{85}",
    ] {
        assert_eq!(trim(s), s.trim());
    }
}

#[test]
fn trimming_twice_is_trimming_once() {
    assert_eq!(trim(trim(" \t a b \n")), "a b");
    assert_eq!(trim("a b"), "a b");
}

#[test]
fn characters_of_a_text() {
    assert_eq!(chars_of("a\u{1f600}\u{e9}"), vec!['a', '\u{1f600}', '\u{e9}']);
    assert!(chars_of("").is_empty());
}

#[test]
fn numbers_in_decimal() {
    for n in [0, 1, 9, 10, 19, 100, 4_294_967_295u32] {
        assert_eq!(decimal_text(n), n.to_string());
    }
}

#[test]
fn texts_are_joined_in_order() {
    assert_eq!(joined("ab", "c"), "abc");
    assert_eq!(joined3("a", "", "bc"), "abc");
}

#[test]
fn prefixes_are_taken_off_whole() {
    assert_eq!(without_prefix("~/x", "~/"), Some("x"));
    assert_eq!(without_prefix("~/", "~/"), Some(""));
    assert_eq!(without_prefix("~", "~/"), None);
    assert_eq!(without_prefix("~x/", "~/"), None);
    assert_eq!(without_prefix("\u{e9}\u{e8}", "\u{e9}"), Some("\u{e8}"));
}

#[test]
fn leading_characters_are_taken_off() {
    for s in ["", "/", "//", "a/b", "/a", "///a//", "\u{e9}/"] {
        assert_eq!(skip_leading(s, '/'), s.trim_start_matches('/'));
    }
}

#[test]
fn texts_are_compared_whole() {
    assert!(same_text("", ""));
    assert!(same_text("ab", "ab"));
    assert!(!same_text("ab", "a"));
    assert!(!same_text("ab", "aB"));
}
