//! Reading text and keeping it in order.

use project_host::ordered::{comes_before, TextMap};
use project_host::text::{
    begins_with, contains, decimal_text, is_space, join_strings, parse_number, same_as,
    same_ignoring_case, split, split_at_colon, split_lines, split_whitespace, trim, Separator,
};

#[test]
fn white_space_is_what_unicode_says_it_is() {
    for code in 0..=0x10ffff_u32 {
        if let Some(c) = char::from_u32(code) {
            assert_eq!(is_space(c), c.is_whitespace(), "{code:x}");
        }
    }
}

#[test]
fn text_is_cut_where_std_cuts_it() {
    for text in [
        "",
        " ",
        "a",
        "  a b  ",
        "\u{3000}caf\u{e9}\u{2003}x\n",
        "one\r\ntwo\n\nthree",
        "one\ntwo\n",
        "\n",
        "\r\n",
        "a\rb\r",
        "a,b,,c,",
    ] {
        assert_eq!(trim(text), text.trim(), "{text:?}");
        assert_eq!(
            split_whitespace(text),
            text.split_whitespace().collect::<Vec<_>>(),
            "{text:?}"
        );
        assert_eq!(
            split_lines(text),
            text.lines().collect::<Vec<_>>(),
            "{text:?}"
        );
        assert_eq!(
            split(text, Separator::Comma),
            text.split(',').collect::<Vec<_>>(),
            "{text:?}"
        );
        assert_eq!(split_at_colon(text), text.split_once(':'), "{text:?}");
        for needle in ["", "a", "ab", ",c", "\n"] {
            assert_eq!(contains(text, needle), text.contains(needle), "{text:?}");
        }
    }
    assert_eq!(split("a/b\\c", Separator::Slash), ["a", "b", "c"]);
    assert_eq!(split_at_colon("k: v:w"), Some(("k", " v:w")));
}

#[test]
fn a_line_begins_with_a_word_after_its_indent() {
    assert!(begins_with("flags\t: fpu", "flags"));
    assert!(!begins_with("power flags", "flags"));
}

#[test]
fn numbers_are_read_and_written() {
    for n in [0, 7, 10, 80, 3000, 65535] {
        assert_eq!(decimal_text(n), n.to_string());
    }
    for text in [
        "0", "42", "+7", "", "+", "-1", "4294967295", "4294967296", "1a", " 1",
    ] {
        assert_eq!(parse_number(text), text.parse::<u32>().ok(), "{text:?}");
    }
}

#[test]
fn words_are_held_against_each_other() {
    assert!(same_ignoring_case("TrUe", "true"));
    assert!(!same_ignoring_case("true", "truth"));
    assert!(same_as(Some("a"), "a"));
    assert!(!same_as(None, "a"));
    assert_eq!(
        join_strings(&vec!["a".to_string(), "b".to_string()], ", "),
        "a, b"
    );
    assert_eq!(join_strings(&vec![], ", "), "");
}

#[test]
fn keys_are_kept_in_the_order_of_their_text() {
    let mut map: TextMap<u32> = TextMap::new();
    for (at, key) in ["b", "a", "caf\u{e9}", "", "ab", "b"].iter().enumerate() {
        map.insert(key.to_string(), at as u32);
    }
    let keys: Vec<String> = (0..map.len())
        .map(|at| map.entry(at).0.to_string())
        .collect();
    let mut sorted = keys.clone();
    sorted.sort();
    assert_eq!(keys, sorted);
    assert_eq!(keys.len(), 5);
    assert_eq!(map.get("b"), Some(&5));
    assert!(map.contains_key(""));
    assert_eq!(map.remove("a"), Some(1));
    assert_eq!(map.remove("a"), None);
    assert_eq!(map.get("ab"), Some(&4));
    for (a, b) in [("a", "b"), ("a", "ab"), ("b", "ab"), ("", "a"), ("a", "a")] {
        assert_eq!(comes_before(a, b), a < b);
    }
}
