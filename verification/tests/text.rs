use cloudreve::text::{
    characters, concat2, concat3, decimal_text, same_text, split, starts_with, strip_trailing, trim,
};

#[test]
fn white_space_is_trimmed_at_both_ends() {
    assert_eq!(trim("  a b\t\n"), "a b");
    assert_eq!(trim("\u{3000}x\u{a0}"), "x");
    assert_eq!(trim(" \u{2003} "), "");
    assert_eq!(trim(""), "");
    assert_eq!(trim("\u{200b}x"), "\u{200b}x");
}

#[test]
fn trimming_twice_is_trimming_once() {
    for text in ["", " ", " a", "a ", " a b ", "\n\u{85}é\u{2028}"] {
        assert_eq!(trim(trim(text)), trim(text));
        assert_eq!(trim(text), text.trim());
    }
}

#[test]
fn trailing_characters_are_stripped() {
    assert_eq!(strip_trailing("a//b///", '/'), "a//b");
    assert_eq!(strip_trailing("////", '/'), "");
    assert_eq!(strip_trailing("日本é", 'é'), "日本");
    assert_eq!(strip_trailing("abc", '/'), "abc");
}

#[test]
fn prefixes_are_found() {
    assert!(starts_with("http://x", "http://"));
    assert!(starts_with("x", ""));
    assert!(starts_with("äb", "ä"));
    assert!(!starts_with("http:/", "http://"));
    assert!(!starts_with("HTTP://x", "http://"));
}

#[test]
fn pieces_are_split_and_rejoin() {
    assert_eq!(split("a.b.c", '.'), vec!["a", "b", "c"]);
    assert_eq!(split("", '.'), vec![""]);
    assert_eq!(split(".", '.'), vec!["", ""]);
    assert_eq!(split("ä..ö", '.'), vec!["ä", "", "ö"]);
    for text in ["", "a", "a.", ".a", "a..b.c", "é.日.本"] {
        let pieces = split(text, '.');
        assert_eq!(pieces.join("."), text);
        assert!(pieces.iter().all(|piece| !piece.contains('.')));
    }
}

#[test]
fn numbers_are_written_in_decimal() {
    assert_eq!(decimal_text(0), "0");
    assert_eq!(decimal_text(7), "7");
    assert_eq!(decimal_text(10), "10");
    assert_eq!(decimal_text(1_234_567_890), "1234567890");
    assert_eq!(decimal_text(u64::MAX), "18446744073709551615");
}

#[test]
fn texts_are_put_together_and_compared() {
    assert_eq!(concat2("ä", "b"), "äb");
    assert_eq!(concat3("a", "", "c"), "ac");
    assert_eq!(characters("aé日"), vec!['a', 'é', '日']);
    assert!(same_text("aé", "aé"));
    assert!(!same_text("a", "A"));
}

#[test]
fn white_space_is_what_unicode_says() {
    let listed = "\u{9}\u{a}\u{b}\u{c}\u{d} \u{85}\u{a0}\u{1680}\u{2000}\u{2001}\u{2002}\u{2003}\
        \u{2004}\u{2005}\u{2006}\u{2007}\u{2008}\u{2009}\u{200a}\u{2028}\u{2029}\u{202f}\u{205f}\u{3000}";
    assert_eq!(listed.chars().count(), 25);
    for c in '\0'..=char::MAX {
        assert_eq!(trim(&c.to_string()).is_empty(), listed.contains(c));
    }
}
