use lookup::encode::{urldecoded, urlencoded};

#[test]
fn unreserved_characters_pass_through() {
    let all = "abcdefghijklmnopqrstuvwxyzABCDEFGHIJKLMNOPQRSTUVWXYZ0123456789-_.~";
    assert_eq!(urlencoded(all), all);
}

#[test]
fn space_becomes_percent_20() {
    assert_eq!(urlencoded(" "), "%20");
    assert_eq!(urlencoded("new york"), "new%20york");
    assert_eq!(urlencoded("  a  "), "%20%20a%20%20");
}

#[test]
fn plus_is_escaped_and_never_stands_for_a_space() {
    assert_eq!(urlencoded("a+b"), "a%2Bb");
    assert_eq!(urldecoded("a+b"), Some(String::from("a+b")));
}

#[test]
fn accented_term_is_encoded_byte_by_byte() {
    assert_eq!(urlencoded("café"), "caf%C3%A9");
}

#[test]
fn characters_of_every_utf8_width() {
    assert_eq!(urlencoded("\u{7f}"), "%7F");
    assert_eq!(urlencoded("\u{80}"), "%C2%80");
    assert_eq!(urlencoded("\u{7ff}"), "%DF%BF");
    assert_eq!(urlencoded("\u{800}"), "%E0%A0%80");
    assert_eq!(urlencoded("€"), "%E2%82%AC");
    assert_eq!(urlencoded("\u{ffff}"), "%EF%BF%BF");
    assert_eq!(urlencoded("\u{10000}"), "%F0%90%80%80");
    assert_eq!(urlencoded("😀"), "%F0%9F%98%80");
    assert_eq!(urlencoded("\u{10ffff}"), "%F4%8F%BF%BF");
}

#[test]
fn reserved_ascii_is_escaped_in_upper_case() {
    assert_eq!(urlencoded("a/b?c=d&e"), "a%2Fb%3Fc%3Dd%26e");
    assert_eq!(urlencoded("100%"), "100%25");
    assert_eq!(urlencoded("\0\n\t"), "%00%0A%09");
    assert_eq!(urlencoded("<[{|}]>"), "%3C%5B%7B%7C%7D%5D%3E");
}

#[test]
fn empty_input_gives_empty_output() {
    assert_eq!(urlencoded(""), "");
    assert_eq!(urldecoded(""), Some(String::new()));
}

#[test]
fn output_is_never_shorter_and_holds_no_space() {
    for s in ["", "a", " ", "a b c", "café au lait", "日本語 テキスト", "~-_.", "%20"] {
        let e = urlencoded(s);
        assert!(e.chars().count() >= s.chars().count());
        assert!(!e.contains(' '));
        assert!(e.chars().all(|c| c.is_ascii_alphanumeric() || "-_.~%".contains(c)));
    }
}

#[test]
fn decoding_recovers_the_input() {
    for s in [
        "",
        "plain",
        "two words",
        "café",
        "100% sure?",
        "a+b=c&d",
        "日本語",
        "😀 smile",
        "%41",
        "\u{0}\u{7f}\u{80}\u{7ff}\u{800}\u{ffff}\u{10000}\u{10ffff}",
    ] {
        assert_eq!(urldecoded(&urlencoded(s)), Some(String::from(s)));
    }
}

#[test]
fn decoding_accepts_lower_case_digits() {
    assert_eq!(urldecoded("caf%c3%a9"), Some(String::from("café")));
    assert_eq!(urldecoded("%4a%4A"), Some(String::from("JJ")));
}

#[test]
fn decoding_passes_unescaped_text_through() {
    assert_eq!(urldecoded("a b"), Some(String::from("a b")));
    assert_eq!(urldecoded("é%20é"), Some(String::from("é é")));
}

#[test]
fn decoding_rejects_a_malformed_escape() {
    assert_eq!(urldecoded("%"), None);
    assert_eq!(urldecoded("%2"), None);
    assert_eq!(urldecoded("abc%2"), None);
    assert_eq!(urldecoded("%zz"), None);
    assert_eq!(urldecoded("%2g"), None);
    assert_eq!(urldecoded("%%20"), None);
}

#[test]
fn decoding_rejects_bytes_that_are_not_utf8() {
    assert_eq!(urldecoded("%FF"), None);
    assert_eq!(urldecoded("%C3"), None);
    assert_eq!(urldecoded("%C3%28"), None);
    assert_eq!(urldecoded("%ED%A0%80"), None);
    assert_eq!(urldecoded("%C0%80"), None);
    assert_eq!(urldecoded("%F4%90%80%80"), None);
}
