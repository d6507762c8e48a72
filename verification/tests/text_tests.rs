use cooee::text::{join_path, push_decimal, same_text, skip_chars, starts_with, trim_whitespace};

#[test]
fn decimal_numerals() {
    for n in [0i64, 7, -7, 10, 12345, -1000, i64::MAX, i64::MIN] {
        let mut s = String::from("x=");
        push_decimal(&mut s, n);
        assert_eq!(s, format!("x={n}"));
    }
}

#[test]
fn path_joining() {
    assert_eq!(join_path("/a", "b"), "/a/b");
    assert_eq!(join_path("/a/", "b"), "/a/b");
    assert_eq!(join_path("", "b"), "b");
    assert_eq!(join_path("/a", "/b"), "/b");
    for (a, b) in [("/a", "b"), ("/a/", "b"), ("", "b"), ("/a", "/b"), (".", ".config")] {
        assert_eq!(join_path(a, b), std::path::Path::new(a).join(b).to_str().unwrap());
    }
}

#[test]
fn trimming_and_prefixes() {
    assert_eq!(trim_whitespace("  Open\n"), "Open");
    assert_eq!(trim_whitespace("\t \n"), "");
    assert_eq!(trim_whitespace(" a b "), "a b");
    assert!(starts_with("file:///x", "file://"));
    assert!(!starts_with("fil", "file://"));
    assert_eq!(skip_chars("file:///x", 7), "/x");
    assert!(same_text("off", "off"));
    assert!(!same_text("off", "of"));
}

#[test]
fn whitespace_matches_std_for_every_char() {
    for v in 0u32..=0x10FFFF {
        if let Some(c) = char::from_u32(v) {
            assert_eq!(cooee::text::is_whitespace(c), c.is_whitespace(), "U+{v:04X}");
        }
    }
}
