use lookup::text::{chars_of, is_space, push_decimal, push_trimmed, same_text};

fn decimal(n: usize) -> String {
    let mut out = String::new();
    push_decimal(&mut out, n);
    out
}

fn trimmed(s: &str) -> String {
    let mut out = String::new();
    push_trimmed(&mut out, s);
    out
}

#[test]
fn decimal_forms() {
    assert_eq!(decimal(0), "0");
    assert_eq!(decimal(7), "7");
    assert_eq!(decimal(9), "9");
    assert_eq!(decimal(10), "10");
    assert_eq!(decimal(11), "11");
    assert_eq!(decimal(99), "99");
    assert_eq!(decimal(100), "100");
    assert_eq!(decimal(1234567890), "1234567890");
    assert_eq!(decimal(usize::MAX), usize::MAX.to_string());
}

#[test]
fn decimal_is_appended() {
    let mut out = String::from("n = ");
    push_decimal(&mut out, 42);
    assert_eq!(out, "n = 42");
}

#[test]
fn trimming_removes_whitespace_at_both_ends_only() {
    assert_eq!(trimmed("  Summary text.  "), "Summary text.");
    assert_eq!(trimmed("\n\t a  b \r\n"), "a  b");
    assert_eq!(trimmed("none"), "none");
    assert_eq!(trimmed(""), "");
    assert_eq!(trimmed("   "), "");
    assert_eq!(trimmed(" x"), "x");
    assert_eq!(trimmed("x "), "x");
}

#[test]
fn trimming_is_appended() {
    let mut out = String::from("[");
    push_trimmed(&mut out, "  in  ");
    out.push(']');
    assert_eq!(out, "[in]");
}

#[test]
fn whitespace_is_what_std_takes_for_whitespace() {
    for code in 0..=0x10ffffu32 {
        if let Some(c) = char::from_u32(code) {
            assert_eq!(is_space(c), c.is_whitespace(), "U+{:04X}", code);
        }
    }
}

#[test]
fn trimming_agrees_with_std() {
    for s in [
        "\u{a0}non-breaking\u{a0}",
        "\u{3000}ideographic\u{3000}",
        "\u{2003}em space\u{2009}",
        "\u{85}next line\u{85}",
        "\u{feff}not whitespace\u{feff}",
        "\u{200b}zero width\u{200b}",
        " \u{1680}\u{2028}\u{2029}\u{202f}\u{205f}x\u{205f}\u{202f} ",
        "é ",
        " 😀 ",
    ] {
        assert_eq!(trimmed(s), s.trim());
    }
}

#[test]
fn characters_in_order() {
    assert_eq!(chars_of(""), Vec::<char>::new());
    assert_eq!(chars_of("aé😀"), vec!['a', 'é', '😀']);
}

#[test]
fn texts_are_compared_by_content() {
    assert!(same_text("", ""));
    assert!(same_text("query", "query"));
    assert!(same_text("café", "café"));
    assert!(!same_text("query", "Query"));
    assert!(!same_text("query", "quer"));
    assert!(!same_text("a", ""));
    assert!(!same_text("e\u{301}", "é"));
}
