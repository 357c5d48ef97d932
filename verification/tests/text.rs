use address_standardizer_wasm_pagc::address::StandardizedAddress;
use address_standardizer_wasm_pagc::text::as_text;

fn s(t: &str) -> Option<String> {
    Some(t.to_string())
}

#[test]
fn as_text_full_address() {
    let a = StandardizedAddress {
        house_num: s("123"),
        predir: s("N"),
        pretype: s("HWY"),
        name: s("MAIN"),
        suftype: s("ST"),
        sufdir: s("W"),
        unit: s("# 4"),
        city: s("KANSAS CITY"),
        state: s("MISSOURI"),
        postcode: s("45678"),
        ..Default::default()
    };
    assert_eq!(as_text(&a), "123 N MAIN ST W, # 4, KANSAS CITY MISSOURI 45678");
}

#[test]
fn as_text_of_default_is_empty() {
    assert_eq!(as_text(&StandardizedAddress::default()), "");
}

#[test]
fn as_text_ignores_unrendered_components() {
    let a = StandardizedAddress {
        building: s("TOWER"),
        qual: s("OLD"),
        ruralroute: s("RR 2"),
        extra: s("REAR"),
        country: s("USA"),
        box_: s("PO BOX 9"),
        ..Default::default()
    };
    assert_eq!(as_text(&a), "");
    let b = StandardizedAddress { name: s("ELM"), ..a.clone() };
    assert_eq!(as_text(&b), "ELM");
}

#[test]
fn as_text_unit_alone() {
    let a = StandardizedAddress { unit: s("APT 7"), ..Default::default() };
    assert_eq!(as_text(&a), "APT 7");
}

#[test]
fn as_text_skips_missing_lines() {
    let a = StandardizedAddress {
        house_num: s("1"),
        name: s("OAK"),
        state: s("MN"),
        ..Default::default()
    };
    assert_eq!(as_text(&a), "1 OAK, MN");
    let b = StandardizedAddress { city: s("ST PAUL"), postcode: s("55101"), ..Default::default() };
    assert_eq!(as_text(&b), "ST PAUL 55101");
}

#[test]
fn as_text_keeps_present_empty_components() {
    let a = StandardizedAddress { house_num: s(""), name: s("OAK"), ..Default::default() };
    assert_eq!(as_text(&a), " OAK");
}

#[test]
fn as_text_leaves_out_pretype() {
    let a = StandardizedAddress { house_num: s("1"), pretype: s("H"), name: s("7"), ..Default::default() };
    assert_eq!(as_text(&a), "1 7");
    let b = StandardizedAddress { pretype: None, ..a.clone() };
    assert_eq!(as_text(&a), as_text(&b));
}
