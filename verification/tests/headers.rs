use source_dispatch::fields::{keep_headers, layer_headers};
use source_dispatch::headers::HeaderTable;

fn pair(name: &str, value: &str) -> (String, String) {
    (name.to_string(), value.to_string())
}

#[test]
fn a_new_table_is_empty() {
    let table = HeaderTable::new();
    assert_eq!(table.len(), 0);
    assert_eq!(table.get("accept"), None);
}

#[test]
fn insert_puts_a_value_under_a_name() {
    let mut table = HeaderTable::new();
    table.insert("accept".to_string(), "text/html".to_string());
    assert_eq!(table.len(), 1);
    assert_eq!(table.get("accept"), Some(&"text/html".to_string()));
    assert_eq!(table.get("Accept"), None);
}

#[test]
fn insert_replaces_the_value_of_a_name() {
    let mut table = HeaderTable::new();
    table.insert("accept".to_string(), "text/html".to_string());
    table.insert("user-agent".to_string(), "one".to_string());
    table.insert("accept".to_string(), "application/json".to_string());
    assert_eq!(table.len(), 2);
    assert_eq!(table.get("accept"), Some(&"application/json".to_string()));
    assert_eq!(table.get("user-agent"), Some(&"one".to_string()));
}

#[test]
fn the_listing_names_each_entry_once() {
    let mut table = HeaderTable::new();
    table.insert("a".to_string(), "1".to_string());
    table.insert("b".to_string(), "2".to_string());
    table.insert("a".to_string(), "3".to_string());
    assert_eq!(table.len(), 2);
    let mut listed = Vec::new();
    for at in 0..table.len() {
        let (name, value) = table.entry(at);
        listed.push((name.clone(), value.clone()));
    }
    listed.sort();
    assert_eq!(listed, vec![pair("a", "3"), pair("b", "2")]);
}

#[test]
fn layering_puts_headers_under_their_canonical_names() {
    let mut table = HeaderTable::new();
    layer_headers(
        &mut table,
        &vec![pair("Accept", "application/json"), pair("X-Custom-Header", "Value")],
    );
    assert_eq!(table.len(), 2);
    assert_eq!(table.get("accept"), Some(&"application/json".to_string()));
    assert_eq!(table.get("x-custom-header"), Some(&"Value".to_string()));
    assert_eq!(table.get("Accept"), None);
}

#[test]
fn layering_lets_the_later_of_two_headers_stay() {
    let mut table = HeaderTable::new();
    table.insert("user-agent".to_string(), "baseline".to_string());
    layer_headers(
        &mut table,
        &vec![pair("User-Agent", "first"), pair("accept", "a"), pair("USER-AGENT", "second")],
    );
    assert_eq!(table.len(), 2);
    assert_eq!(table.get("user-agent"), Some(&"second".to_string()));
    assert_eq!(table.get("accept"), Some(&"a".to_string()));
}

#[test]
fn layering_keeps_what_is_not_overridden() {
    let mut table = HeaderTable::new();
    table.insert("user-agent".to_string(), "baseline".to_string());
    layer_headers(&mut table, &vec![pair("Accept", "application/json")]);
    assert_eq!(table.get("user-agent"), Some(&"baseline".to_string()));
    assert_eq!(table.get("accept"), Some(&"application/json".to_string()));
}

#[test]
fn layering_passes_over_a_header_with_a_bad_name() {
    let mut table = HeaderTable::new();
    layer_headers(
        &mut table,
        &vec![
            pair("", "empty"),
            pair("bad name", "space"),
            pair("bad:name", "colon"),
            pair("naïve", "not ascii"),
            pair("good-name", "kept"),
        ],
    );
    assert_eq!(table.len(), 1);
    assert_eq!(table.get("good-name"), Some(&"kept".to_string()));
}

#[test]
fn layering_takes_every_token_character_in_a_name() {
    let mut table = HeaderTable::new();
    layer_headers(&mut table, &vec![pair("!#$%&'*+-.^_`|~09AZaz", "v")]);
    assert_eq!(table.get("!#$%&'*+-.^_`|~09azaz"), Some(&"v".to_string()));
}

#[test]
fn layering_bounds_the_length_of_a_name() {
    let longest = "a".repeat(65535);
    let too_long = "a".repeat(65536);
    let mut table = HeaderTable::new();
    layer_headers(&mut table, &vec![pair(&longest, "kept"), pair(&too_long, "dropped")]);
    assert_eq!(table.len(), 1);
    assert_eq!(table.get(&longest), Some(&"kept".to_string()));
}

#[test]
fn layering_passes_over_a_header_with_a_bad_value() {
    let mut table = HeaderTable::new();
    layer_headers(
        &mut table,
        &vec![
            pair("a", "line\nbreak"),
            pair("b", "del\u{7f}"),
            pair("c", "nul\u{0}"),
            pair("d", "tab\tis fine"),
            pair("e", "h\u{e9}llo"),
            pair("f", ""),
        ],
    );
    assert_eq!(table.len(), 3);
    assert_eq!(table.get("a"), None);
    assert_eq!(table.get("b"), None);
    assert_eq!(table.get("c"), None);
    assert_eq!(table.get("d"), Some(&"tab\tis fine".to_string()));
    assert_eq!(table.get("e"), Some(&"h\u{e9}llo".to_string()));
    assert_eq!(table.get("f"), Some(&"".to_string()));
}

#[test]
fn response_headers_with_textual_values_are_kept() {
    let table = keep_headers(&vec![
        ("content-type".to_string(), b"application/json".to_vec()),
        ("x-tab".to_string(), b"a\tb".to_vec()),
        ("x-empty".to_string(), Vec::new()),
    ]);
    assert_eq!(table.len(), 3);
    assert_eq!(table.get("content-type"), Some(&"application/json".to_string()));
    assert_eq!(table.get("x-tab"), Some(&"a\tb".to_string()));
    assert_eq!(table.get("x-empty"), Some(&"".to_string()));
}

#[test]
fn response_headers_whose_values_are_no_text_are_passed_over() {
    let table = keep_headers(&vec![
        ("x-latin".to_string(), vec![b'h', 0xe9, b'l', b'l', b'o']),
        ("x-utf8".to_string(), "h\u{e9}llo".as_bytes().to_vec()),
        ("x-del".to_string(), vec![b'a', 0x7f]),
        ("x-newline".to_string(), vec![b'a', b'\n']),
        ("x-fine".to_string(), b"fine".to_vec()),
    ]);
    assert_eq!(table.len(), 1);
    assert_eq!(table.get("x-fine"), Some(&"fine".to_string()));
    assert_eq!(table.get("x-latin"), None);
    assert_eq!(table.get("x-utf8"), None);
}

#[test]
fn of_two_response_headers_with_one_name_the_later_stays() {
    let table = keep_headers(&vec![
        ("set-cookie".to_string(), b"a=1".to_vec()),
        ("set-cookie".to_string(), b"b=2".to_vec()),
        ("set-cookie".to_string(), vec![0xff]),
    ]);
    assert_eq!(table.len(), 1);
    assert_eq!(table.get("set-cookie"), Some(&"b=2".to_string()));
}

#[test]
fn a_name_is_taken_exactly_when_it_is_made_of_token_characters() {
    let symbols = "!#$%&'*+-.^_`|~";
    for code in 0u32..=0x17f {
        let c = char::from_u32(code).expect("a character");
        let token = c.is_ascii_alphanumeric() || symbols.contains(c);
        let name = format!("x{}y", c);
        let mut table = HeaderTable::new();
        layer_headers(&mut table, &vec![(name.clone(), "v".to_string())]);
        if token {
            let canonical = format!("x{}y", c.to_ascii_lowercase());
            assert_eq!(table.len(), 1);
            assert_eq!(table.get(&canonical), Some(&"v".to_string()));
        } else {
            assert_eq!(table.len(), 0);
        }
    }
}

#[test]
fn a_value_is_taken_exactly_when_it_holds_no_control_character_but_the_tab() {
    for code in 0u32..=0x17f {
        let c = char::from_u32(code).expect("a character");
        let accepted = c == '\t' || (code >= 32 && code != 127);
        let value = format!("a{}b", c);
        let mut table = HeaderTable::new();
        layer_headers(&mut table, &vec![("x".to_string(), value.clone())]);
        if accepted {
            assert_eq!(table.get("x"), Some(&value));
        } else {
            assert_eq!(table.get("x"), None);
        }
    }
}

#[test]
fn a_response_value_is_text_exactly_when_it_is_visible_ascii_and_tabs() {
    for byte in 0u8..=255 {
        let visible = byte == b'\t' || (32..127).contains(&byte);
        let table = keep_headers(&vec![("x".to_string(), vec![b'a', byte, b'b'])]);
        if visible {
            let text = format!("a{}b", byte as char);
            assert_eq!(table.get("x"), Some(&text));
        } else {
            assert_eq!(table.get("x"), None);
        }
    }
}
