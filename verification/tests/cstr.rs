use address_standardizer_wasm_pagc::cstr::{c_string_bytes, c_string_input, read_field};
use address_standardizer_wasm_pagc::strings::push_decimal;

#[test]
fn c_string_input_accepts_nul_free_text() {
    assert_eq!(c_string_input("123 Main St", "invalid micro: "), Ok(b"123 Main St".to_vec()));
    assert_eq!(c_string_input("", "invalid micro: "), Ok(Vec::new()));
    assert_eq!(c_string_input("é", "x: "), Ok(vec![0xc3, 0xa9]));
}

#[test]
fn c_string_input_reports_first_nul_byte_position() {
    assert_eq!(
        c_string_input("ab\0c\0", "invalid micro: "),
        Err("invalid micro: nul byte found in provided data at position: 2".to_string())
    );
    assert_eq!(
        c_string_input("\0", "invalid address: "),
        Err("invalid address: nul byte found in provided data at position: 0".to_string())
    );
    // The position counts bytes, not characters.
    assert_eq!(
        c_string_input("é\0", "invalid macro: "),
        Err("invalid macro: nul byte found in provided data at position: 2".to_string())
    );
    let long = format!("{}\0", "a".repeat(1234));
    assert_eq!(
        c_string_input(&long, "p: "),
        Err("p: nul byte found in provided data at position: 1234".to_string())
    );
}

#[test]
fn c_string_bytes_positions() {
    assert_eq!(c_string_bytes("xy\0"), Err(2));
    assert_eq!(c_string_bytes("xyz"), Ok(b"xyz".to_vec()));
}

#[test]
fn read_field_null_and_empty_are_absent() {
    assert_eq!(read_field(None), None);
    assert_eq!(read_field(Some(Vec::new())), None);
}

#[test]
fn read_field_decodes_text() {
    assert_eq!(read_field(Some(b"MAIN".to_vec())), Some("MAIN".to_string()));
    assert_eq!(read_field(Some(vec![0xc3, 0xa9])), Some("é".to_string()));
}

#[test]
fn read_field_replaces_invalid_utf8() {
    assert_eq!(read_field(Some(vec![b'A', 0xff, b'B'])), Some("A\u{FFFD}B".to_string()));
    assert_eq!(read_field(Some(vec![0xff])), Some("\u{FFFD}".to_string()));
}

#[test]
fn read_field_reads_back_an_input_buffer() {
    let text = "1600 Pennsylvania Ave NW — Washington";
    let buf = c_string_input(text, "p: ").unwrap();
    assert_eq!(read_field(Some(buf)), Some(text.to_string()));
}

#[test]
fn push_decimal_numerals() {
    for (n, want) in [(0usize, "0"), (7, "7"), (10, "10"), (12345, "12345"), (1000000, "1000000")] {
        let mut s = String::from("n=");
        push_decimal(&mut s, n);
        assert_eq!(s, format!("n={want}"));
    }
    let mut s = String::new();
    push_decimal(&mut s, usize::MAX);
    assert_eq!(s, usize::MAX.to_string());
}
