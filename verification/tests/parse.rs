use address_standardizer_wasm_pagc::parse::{address_from_parsed, parse_finish, parse_request, RawAddress};

fn b(t: &str) -> Option<Vec<u8>> {
    Some(t.as_bytes().to_vec())
}

fn empty_raw() -> RawAddress {
    RawAddress {
        num: None,
        street: None,
        street2: None,
        address1: None,
        city: None,
        st: None,
        zip: None,
        zipplus: None,
        cc: None,
    }
}

#[test]
fn parse_returns_structured_output() {
    // The splitter's record for "123 Main St, Kansas City, MO 45678".
    let raw = RawAddress {
        num: b("123"),
        street: b("Main St"),
        street2: None,
        address1: b("123 Main St"),
        city: b("Kansas City"),
        st: b("MO"),
        zip: b("45678"),
        zipplus: None,
        cc: b("US"),
    };
    let a = parse_finish(Some(raw)).expect("parse");
    assert_eq!(a.state.as_deref(), Some("MO"), "state mis-extracted: {a:?}");
    assert_eq!(a.postcode.as_deref(), Some("45678"), "zip mis-extracted: {a:?}");
    assert!(a.country.is_some(), "country should be tagged: {a:?}");
    assert!(a.suftype.is_none(), "parse() should not fill suftype (that's standardize's job): {a:?}");
    assert_eq!(a.house_num.as_deref(), Some("123"));
    assert_eq!(a.name.as_deref(), Some("Main St"));
    assert_eq!(a.extra, None);
}

#[test]
fn parse_request_hands_the_whole_address_to_the_splitter() {
    let input = "123 Main St, Kansas City, MO 45678";
    assert_eq!(parse_request(input), Ok(input.as_bytes().to_vec()));
}

#[test]
fn parse_request_buffers_and_errors() {
    assert_eq!(parse_request("1 Elm St"), Ok(b"1 Elm St".to_vec()));
    assert_eq!(
        parse_request("1 Elm\0St"),
        Err("invalid address: nul byte found in provided data at position: 5".to_string())
    );
}

#[test]
fn parse_finish_without_record_is_an_error() {
    assert_eq!(parse_finish(None).err(), Some("PAGC: pagc_parse_address returned NULL".to_string()));
}

#[test]
fn postcode_joins_zip_and_plus_four() {
    let a = address_from_parsed(RawAddress { zip: b("55101"), zipplus: b("1234"), ..empty_raw() });
    assert_eq!(a.postcode.as_deref(), Some("55101-1234"));
    let a = address_from_parsed(RawAddress { zip: b("55101"), ..empty_raw() });
    assert_eq!(a.postcode.as_deref(), Some("55101"));
    let a = address_from_parsed(RawAddress { zipplus: b("1234"), ..empty_raw() });
    assert_eq!(a.postcode.as_deref(), Some("1234"));
    let a = address_from_parsed(RawAddress { zip: Some(Vec::new()), zipplus: b("1234"), ..empty_raw() });
    assert_eq!(a.postcode.as_deref(), Some("1234"));
    let a = address_from_parsed(empty_raw());
    assert_eq!(a.postcode, None);
}

#[test]
fn extra_falls_back_to_whole_input() {
    // Neither house number nor street split: the whole input lands in extra.
    let a = address_from_parsed(RawAddress { address1: b("somewhere odd"), ..empty_raw() });
    assert_eq!(a.extra.as_deref(), Some("somewhere odd"));
    // A second street line wins.
    let a = address_from_parsed(RawAddress { address1: b("x"), street2: b("Suite 9"), ..empty_raw() });
    assert_eq!(a.extra.as_deref(), Some("Suite 9"));
    // A street that was split (even to an empty text) keeps address1 out.
    let a = address_from_parsed(RawAddress { address1: b("x"), street: Some(Vec::new()), ..empty_raw() });
    assert_eq!(a.extra, None);
    assert_eq!(a.name, None);
    let a = address_from_parsed(RawAddress { address1: b("x"), num: b("5"), ..empty_raw() });
    assert_eq!(a.extra, None);
}

#[test]
fn parse_leaves_unknown_components_absent() {
    let a = address_from_parsed(RawAddress {
        num: b("9"),
        street: b("Oak Ave"),
        street2: b("Apt 3"),
        address1: b("9 Oak Ave Apt 3"),
        city: b("Albany"),
        st: b("NY"),
        zip: b("12207"),
        zipplus: b("0001"),
        cc: b("US"),
    });
    assert!(a.building.is_none() && a.predir.is_none() && a.qual.is_none());
    assert!(a.pretype.is_none() && a.suftype.is_none() && a.sufdir.is_none());
    assert!(a.ruralroute.is_none() && a.box_.is_none() && a.unit.is_none());
    assert_eq!(a.country.as_deref(), Some("US"));
    assert_eq!(a.city.as_deref(), Some("Albany"));
}
