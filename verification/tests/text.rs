use translator::text::{
    chars_of, decode_lossy, same_text, starts_with, string_of, to_lowercase, to_uppercase, trim,
};

fn chars(s: &str) -> Vec<char> {
    s.chars().collect()
}

#[test]
fn chars_and_strings_convert_both_ways() {
    assert_eq!(chars_of("héllo"), vec!['h', 'é', 'l', 'l', 'o']);
    assert_eq!(string_of(&['h', 'é', 'l', 'l', 'o']), "héllo");
    assert_eq!(string_of(&[]), "");
}

#[test]
fn trim_removes_whitespace_at_both_ends_only() {
    assert_eq!(trim(&chars("  a b \t\r\n")), &chars("a b")[..]);
    assert_eq!(trim(&chars("\u{3000}x\u{a0}")), &chars("x")[..]);
    assert_eq!(trim(&chars(" \n ")), &chars("")[..]);
    assert_eq!(trim(&chars("")), &chars("")[..]);
    assert_eq!(trim(&chars("\u{200b}x")), &chars("\u{200b}x")[..]);
}

#[test]
fn trim_agrees_with_the_standard_library() {
    for s in ["", " ", "a", " a", "a ", "\u{85}a\u{2028}", "\u{1680}\u{2000}b\u{205f}", "\u{feff}c"] {
        assert_eq!(string_of(trim(&chars(s))), s.trim());
    }
}

#[test]
fn case_folding_of_ascii_text() {
    assert_eq!(to_lowercase(&chars("CtRl-9")), chars("ctrl-9"));
    assert_eq!(to_uppercase(&chars("pageUp1")), chars("PAGEUP1"));
}

#[test]
fn case_folding_of_other_text_follows_unicode() {
    assert_eq!(to_lowercase(&chars("ÉCOLE")), chars("école"));
    assert_eq!(to_uppercase(&chars("straße")), chars("STRASSE"));
    assert_eq!(to_uppercase(&chars("\u{17f}")), chars("S"));
}

#[test]
fn lossy_decoding_keeps_valid_text_and_repairs_the_rest() {
    assert_eq!(decode_lossy("né".as_bytes()), chars("né"));
    assert_eq!(decode_lossy(&[b'a', 0xff, b'b']), chars("a\u{fffd}b"));
    assert_eq!(decode_lossy(&[]), chars(""));
}

#[test]
fn text_comparisons() {
    assert!(same_text("auto", "auto"));
    assert!(!same_text("auto", "Auto"));
    assert!(!same_text("auto", "aut"));
    assert!(starts_with(&chars("data: x"), &chars("data: ")));
    assert!(!starts_with(&chars("data:x"), &chars("data: ")));
    assert!(!starts_with(&chars("da"), &chars("data: ")));
    assert!(starts_with(&chars("abc"), &chars("")));
}
