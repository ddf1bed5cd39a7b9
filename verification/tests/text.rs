use service_kit::text::{
    chars_of, parse_flag, parse_number, same_chars, same_text, split, starts_with, FromText,
};

fn split_text(text: &str) -> Vec<String> {
    split(&chars_of(text), '/').iter().map(|piece| piece.iter().collect()).collect()
}

#[test]
fn numbers_are_read_as_the_standard_library_reads_them() {
    for text in [
        "0", "7", "3000", "007", "+5", "+", "-", "-1", "", " 1", "1 ", "1_000", "++1", "1+", "a",
        "18446744073709551615", "18446744073709551616", "99999999999999999999999999", "1.5",
        "\u{663}",
    ] {
        assert_eq!(parse_number(text), text.parse::<u64>().ok(), "{text:?}");
    }
    assert_eq!(parse_number("+31536000"), Some(31536000));
    assert_eq!(u64::from_text("12"), Some(12));
}

#[test]
fn flags_are_read_as_the_standard_library_reads_them() {
    for text in ["true", "false", "True", "1", "", " true", "falsey"] {
        assert_eq!(parse_flag(text), text.parse::<bool>().ok(), "{text:?}");
    }
    assert_eq!(bool::from_text("true"), Some(true));
    assert_eq!(String::from_text("true"), Some("true".to_owned()));
}

#[test]
fn splitting_gives_the_pieces() {
    for text in ["", "/", "a", "a/b", "/a//b/", "\u{e9}/\u{1f600}"] {
        let expected: Vec<String> = text.split('/').map(str::to_owned).collect();
        assert_eq!(split_text(text), expected, "{text:?}");
        assert_eq!(split_text(text).join("/"), text);
    }
}

#[test]
fn joining_then_splitting_gives_the_pieces_back() {
    let parts = ["x", "", "yz"];
    assert_eq!(split_text(&parts.join("/")), parts);
}

#[test]
fn texts_are_compared() {
    assert!(same_text("caf\u{e9}", "caf\u{e9}"));
    assert!(!same_text("cafe", "caf\u{e9}"));
    assert!(!same_text("a", "ab"));
    assert!(same_chars(&vec!['a'], &chars_of("a")));
    assert!(!same_chars(&vec!['a'], &chars_of("b")));
}

#[test]
fn prefixes_are_found() {
    assert!(starts_with("!key", "!"));
    assert!(starts_with("key", ""));
    assert!(starts_with("\u{e9}a", "\u{e9}"));
    assert!(!starts_with("key", "!"));
    assert!(!starts_with("", "!"));
}
