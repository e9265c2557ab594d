use rsvg_internals::parsers::ParseError;
use rsvg_internals::text::str_eq;

#[test]
fn equal_strings_compare_equal() {
    assert!(str_eq("", ""));
    assert!(str_eq("pad", "pad"));
    assert!(str_eq("userSpaceOnUse", "userSpaceOnUse"));
    assert!(str_eq("gr\u{00fc}n \u{1f600}", "gr\u{00fc}n \u{1f600}"));
    let owned = String::from("reflect");
    assert!(str_eq(&owned, "reflect"));
}

#[test]
fn different_strings_compare_unequal() {
    assert!(!str_eq("", "a"));
    assert!(!str_eq("a", ""));
    assert!(!str_eq("pad", "Pad"));
    assert!(!str_eq("pad", "pad "));
    assert!(!str_eq("pad", "pa"));
    assert!(!str_eq("repeat", "reflect"));
    assert!(!str_eq("gr\u{00fc}n", "grun"));
    assert!(!str_eq("\u{00e9}", "e\u{0301}"));
    assert!(!str_eq("abc", "abd"));
}

#[test]
fn parse_error_keeps_its_message() {
    let e = ParseError::new("expected 'pad' | 'reflect' | 'repeat'");
    assert_eq!(e.display, "expected 'pad' | 'reflect' | 'repeat'");
    assert_eq!(e.clone(), e);
    assert_eq!(ParseError::new("").display, "");
    assert_ne!(ParseError::new("a"), ParseError::new("b"));
}
