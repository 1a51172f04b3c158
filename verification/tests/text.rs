use grantbot::text::{is_whitespace, str_chars};

#[test]
fn whitespace_matches_std_for_every_char() {
    for u in 0u32..0x110000 {
        if let Some(c) = char::from_u32(u) {
            assert_eq!(is_whitespace(c), c.is_whitespace(), "U+{:04X}", u);
        }
    }
}

#[test]
fn chars_of_text() {
    assert_eq!(str_chars("aé\u{1F600}"), vec!['a', 'é', '\u{1F600}']);
    assert!(str_chars("").is_empty());
}
