use cyclonedx_gentoo::text::{index_of_char, push_decimal, same_text, split_once, split_tokens};
use cyclonedx_gentoo::text::strip_prefix;

#[test]
fn tokens_of_a_plain_list() {
    assert_eq!(split_tokens("MIT Apache-2.0"), vec!["MIT", "Apache-2.0"]);
    assert_eq!(split_tokens("GPL-2"), vec!["GPL-2"]);
}

#[test]
fn tokens_drop_empty_pieces() {
    assert_eq!(split_tokens(""), Vec::<String>::new());
    assert_eq!(split_tokens(" "), Vec::<String>::new());
    assert_eq!(split_tokens("   "), Vec::<String>::new());
    assert_eq!(split_tokens(" MIT"), vec!["MIT"]);
    assert_eq!(split_tokens("MIT "), vec!["MIT"]);
    assert_eq!(split_tokens("  MIT   BSD  "), vec!["MIT", "BSD"]);
}

#[test]
fn tokens_split_on_spaces_only() {
    assert_eq!(split_tokens("a\tb c\nd"), vec!["a\tb", "c\nd"]);
    assert_eq!(split_tokens("|| ( MIT BSD )"), vec!["||", "(", "MIT", "BSD", ")"]);
}

#[test]
fn tokens_keep_characters_beyond_ascii() {
    assert_eq!(split_tokens("grün blau"), vec!["grün", "blau"]);
    assert_eq!(split_tokens("日本 語"), vec!["日本", "語"]);
}

#[test]
fn tokens_agree_with_split_and_filter() {
    for field in ["", "a", " a  b ", "MIT Apache-2.0 BSD", "  ", "x  y   z"] {
        let expected: Vec<String> =
            field.split(' ').filter(|t| !t.is_empty()).map(|t| t.to_string()).collect();
        assert_eq!(split_tokens(field), expected);
    }
}

#[test]
fn tokens_of_joined_tokens_are_the_tokens() {
    let parts = vec!["MIT", "Apache-2.0", "BSD-3-Clause", "GPL-2+"];
    for n in 0..=parts.len() {
        let field = parts[..n].join(" ");
        let tokens = split_tokens(&field);
        assert_eq!(tokens.len(), n);
        assert_eq!(tokens, parts[..n].to_vec());
    }
}

#[test]
fn index_of_char_counts_characters() {
    assert_eq!(index_of_char("abc/def", '/'), 3);
    assert_eq!(index_of_char("/abc", '/'), 0);
    assert_eq!(index_of_char("abc", '/'), 3);
    assert_eq!(index_of_char("", '/'), 0);
    assert_eq!(index_of_char("a/b/c", '/'), 1);
    assert_eq!(index_of_char("äö/ü", '/'), 2);
}

#[test]
fn same_text_compares_whole_texts() {
    assert!(same_text("", ""));
    assert!(same_text("abc", "abc"));
    assert!(!same_text("abc", "abd"));
    assert!(!same_text("abc", "ab"));
    assert!(!same_text("ab", "abc"));
    assert!(!same_text("", "a"));
}

#[test]
fn strip_prefix_takes_the_prefix_off() {
    assert_eq!(strip_prefix("pkg:gentoo/x", "pkg:gentoo/"), Some("x"));
    assert_eq!(strip_prefix("pkg:gentoo/", "pkg:gentoo/"), Some(""));
    assert_eq!(strip_prefix("abc", ""), Some("abc"));
    assert_eq!(strip_prefix("pkg:cargo/x", "pkg:gentoo/"), None);
    assert_eq!(strip_prefix("pkg", "pkg:gentoo/"), None);
    assert_eq!(strip_prefix("", "a"), None);
}

#[test]
fn split_once_cuts_at_the_first_separator() {
    assert_eq!(split_once("a/b/c", '/'), Some(("a", "b/c")));
    assert_eq!(split_once("/b", '/'), Some(("", "b")));
    assert_eq!(split_once("a/", '/'), Some(("a", "")));
    assert_eq!(split_once("abc", '/'), None);
    assert_eq!(split_once("", '/'), None);
    assert_eq!(split_once("ä@ö", '@'), Some(("ä", "ö")));
}

#[test]
fn decimal_notation_of_numbers() {
    for (n, expected) in [
        (0u32, "0"),
        (1, "1"),
        (9, "9"),
        (10, "10"),
        (42, "42"),
        (100, "100"),
        (1234567890, "1234567890"),
        (u32::MAX, "4294967295"),
    ] {
        let mut out = String::from("v");
        push_decimal(&mut out, n);
        assert_eq!(out, format!("v{}", expected));
    }
}
