use address_standardizer_wasm_pagc::address::StandardizedAddress;
use address_standardizer_wasm_pagc::standardize::{
    address_from_stdaddr, standardize_mm_finish, standardize_mm_request, standardize_request,
    RawStdaddr,
};
use address_standardizer_wasm_pagc::text::as_text;

fn b(t: &str) -> Option<Vec<u8>> {
    Some(t.as_bytes().to_vec())
}

fn empty_raw() -> RawStdaddr {
    RawStdaddr {
        building: None,
        house_num: None,
        predir: None,
        qual: None,
        pretype: None,
        name: None,
        suftype: None,
        sufdir: None,
        ruralroute: None,
        extra: None,
        city: None,
        state: None,
        country: None,
        postcode: None,
        box_: None,
        unit: None,
    }
}

#[test]
fn request_needs_a_built_engine() {
    let r = standardize_mm_request(false, "1 Main St", Some("Boston MA"));
    assert_eq!(
        r.err(),
        Some("PAGC: failed to build standardizer from bundled lex/gaz/rules".to_string())
    );
    // The engine check comes before the input check.
    let r = standardize_mm_request(false, "a\0b", None);
    assert_eq!(
        r.err(),
        Some("PAGC: failed to build standardizer from bundled lex/gaz/rules".to_string())
    );
}

#[test]
fn request_rejects_nul_in_micro_before_macro() {
    let r = standardize_mm_request(true, "1 Main\0 St", Some("Bos\0ton"));
    assert_eq!(
        r.err(),
        Some("invalid micro: nul byte found in provided data at position: 6".to_string())
    );
}

#[test]
fn request_rejects_nul_in_macro() {
    let r = standardize_mm_request(true, "1 Main St", Some("Bos\0ton"));
    assert_eq!(
        r.err(),
        Some("invalid macro: nul byte found in provided data at position: 3".to_string())
    );
}

#[test]
fn request_buffers() {
    let i = standardize_mm_request(true, "1 Main St", Some("Boston MA 02101")).ok().unwrap();
    assert_eq!(i.micro, b"1 Main St".to_vec());
    assert_eq!(i.macro_addr, Some(b"Boston MA 02101".to_vec()));
    let i = standardize_mm_request(true, "1 Main St", None).ok().unwrap();
    assert_eq!(i.macro_addr, None);
}

#[test]
fn standardize_request_has_no_macro_half() {
    let i = standardize_request(true, "25 Elm Rd").ok().unwrap();
    assert_eq!(i.micro, b"25 Elm Rd".to_vec());
    assert_eq!(i.macro_addr, None);
    assert_eq!(
        standardize_request(true, "\0").err(),
        Some("invalid micro: nul byte found in provided data at position: 0".to_string())
    );
}

#[test]
fn finish_without_record_is_an_error() {
    assert_eq!(
        standardize_mm_finish(None),
        Err("PAGC: std_standardize_mm returned NULL".to_string())
    );
}

#[test]
fn finish_reads_every_field() {
    let raw = RawStdaddr {
        building: b("B"),
        house_num: b("123"),
        predir: b("N"),
        qual: b("Q"),
        pretype: b("PT"),
        name: b("MAIN"),
        suftype: b("ST"),
        sufdir: b("W"),
        ruralroute: b("RR"),
        extra: b("X"),
        city: b("BOSTON"),
        state: b("MA"),
        country: b("USA"),
        postcode: b("02101"),
        box_: b("BOX 1"),
        unit: b("# 2"),
    };
    let a = standardize_mm_finish(Some(raw)).unwrap();
    let s = |t: &str| Some(t.to_string());
    assert_eq!(
        a,
        StandardizedAddress {
            building: s("B"),
            house_num: s("123"),
            predir: s("N"),
            qual: s("Q"),
            pretype: s("PT"),
            name: s("MAIN"),
            suftype: s("ST"),
            sufdir: s("W"),
            ruralroute: s("RR"),
            extra: s("X"),
            city: s("BOSTON"),
            state: s("MA"),
            country: s("USA"),
            postcode: s("02101"),
            box_: s("BOX 1"),
            unit: s("# 2"),
        }
    );
    assert_eq!(as_text(&a), "123 N MAIN ST W, # 2, BOSTON MA 02101");
}

#[test]
fn finish_drops_null_and_empty_fields() {
    let raw = RawStdaddr { house_num: b("7"), name: Some(Vec::new()), city: b("ST PAUL"), ..empty_raw() };
    let a = address_from_stdaddr(raw);
    assert_eq!(
        a,
        StandardizedAddress {
            house_num: Some("7".to_string()),
            city: Some("ST PAUL".to_string()),
            ..Default::default()
        }
    );
}
