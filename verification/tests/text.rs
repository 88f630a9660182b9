use source_dispatch::text::{contains_bytes, decimal_text, text_eq};

#[test]
fn texts_are_equal_when_their_characters_are() {
    assert!(text_eq("", ""));
    assert!(text_eq("custom", "custom"));
    assert!(text_eq("黑木耳", "黑木耳"));
    assert!(!text_eq("custom", "Custom"));
    assert!(!text_eq("custom", "custo"));
    assert!(!text_eq("", " "));
}

#[test]
fn a_status_is_written_in_decimal() {
    assert_eq!(decimal_text(0), "0");
    assert_eq!(decimal_text(7), "7");
    assert_eq!(decimal_text(10), "10");
    assert_eq!(decimal_text(404), "404");
    assert_eq!(decimal_text(500), "500");
    assert_eq!(decimal_text(65535), "65535");
}

#[test]
fn a_part_is_found_wherever_it_stands() {
    assert!(contains_bytes(b"application/json", b"application/json"));
    assert!(contains_bytes(b"text/plain, application/json", b"application/json"));
    assert!(contains_bytes(b"application/json; charset=utf-8", b"application/json"));
    assert!(contains_bytes(b"abc", b""));
    assert!(contains_bytes(b"", b""));
}

#[test]
fn a_part_that_does_not_occur_is_not_found() {
    assert!(!contains_bytes(b"application/jso", b"application/json"));
    assert!(!contains_bytes(b"", b"a"));
    assert!(!contains_bytes(b"Application/JSON", b"application/json"));
    assert!(!contains_bytes(b"aab", b"abb"));
}
