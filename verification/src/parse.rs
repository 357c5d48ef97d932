//! The decisions around one call of PAGC's regex address splitter.
//!
//! The splitter extracts the trailing city / state / postcode / country of
//! an address and a leading house number, and leaves the street name as it
//! was written. Its record is packed into the same `StandardizedAddress`
//! shape as a standardize result; the splitter has no notion of building,
//! pre-direction, qualifier, pre-type, suffix type, suffix direction, rural
//! route, box or unit, and those components stay absent.

use vstd::prelude::*;
use vstd::string::*;

use crate::address::{no_empty_component, AddressModel, StandardizedAddress};
use crate::cstr::{bytes_view, c_input, c_string_input, field_text, read_field};

verus! {

/// The fields of PAGC's `ADDRESS` record that the splitter fills, as the
/// engine returned them: the bytes of each C string, `None` where NULL.
pub struct RawAddress {
    pub num: Option<Vec<u8>>,
    pub street: Option<Vec<u8>>,
    pub street2: Option<Vec<u8>>,
    pub address1: Option<Vec<u8>>,
    pub city: Option<Vec<u8>>,
    pub st: Option<Vec<u8>>,
    pub zip: Option<Vec<u8>>,
    pub zipplus: Option<Vec<u8>>,
    pub cc: Option<Vec<u8>>,
}

/// The postcode made of a zip and its plus-four: both joined by "-", or
/// whichever of them is present.
pub open spec fn postcode_of(zip: Option<Seq<char>>, zipplus: Option<Seq<char>>) -> Option<Seq<char>> {
    match (zip, zipplus) {
        (Some(z), Some(p)) => Some(z + "-"@ + p),
        (Some(z), None) => Some(z),
        (None, Some(p)) => Some(p),
        (None, None) => None,
    }
}

/// The extra component: the second street line; where the splitter could
/// split neither house number nor street (both NULL) and there is no second
/// line, the whole cleaned input, so that the caller still sees something.
pub open spec fn extra_of(r: RawAddress) -> Option<Seq<char>> {
    let extra = field_text(bytes_view(r.street2));
    match field_text(bytes_view(r.address1)) {
        Some(a1) => if r.num is None && r.street is None && extra is None {
            Some(a1)
        } else {
            extra
        },
        None => extra,
    }
}

/// The address that a raw `ADDRESS` record stands for.
pub open spec fn parsed_model(r: RawAddress) -> AddressModel {
    AddressModel {
        building: None,
        house_num: field_text(bytes_view(r.num)),
        predir: None,
        qual: None,
        pretype: None,
        name: field_text(bytes_view(r.street)),
        suftype: None,
        sufdir: None,
        ruralroute: None,
        extra: extra_of(r),
        city: field_text(bytes_view(r.city)),
        state: field_text(bytes_view(r.st)),
        country: field_text(bytes_view(r.cc)),
        postcode: postcode_of(field_text(bytes_view(r.zip)), field_text(bytes_view(r.zipplus))),
        box_: None,
        unit: None,
    }
}

/// Joins a zip and its plus-four.
fn join_postcode(zip: Option<String>, zipplus: Option<String>) -> (res: Option<String>)
    ensures
        res.deep_view() == postcode_of(zip.deep_view(), zipplus.deep_view()),
{
    match (zip, zipplus) {
        (Some(z), Some(p)) => {
            let mut s = z;
            s.append("-");
            s.append(p.as_str());
            Some(s)
        },
        (Some(z), None) => Some(z),
        (None, Some(p)) => Some(p),
        (None, None) => None,
    }
}

/// Packs a raw `ADDRESS` record into an address, which has no empty
/// component.
pub fn address_from_parsed(r: RawAddress) -> (a: StandardizedAddress)
    ensures
        a@ == parsed_model(r),
        no_empty_component(a@),
{
    let ghost g = r;
    let num_null = r.num.is_none();
    let street_null = r.street.is_none();
    let zip = read_field(r.zip);
    let zipplus = read_field(r.zipplus);
    let postcode = join_postcode(zip, zipplus);
    let mut extra = read_field(r.street2);
    match read_field(r.address1) {
        Some(a1) => {
            if num_null && street_null && extra.is_none() {
                extra = Some(a1);
            }
        },
        None => {},
    }
    assert(extra.deep_view() == extra_of(g));
    StandardizedAddress {
        building: None,
        house_num: read_field(r.num),
        predir: None,
        qual: None,
        pretype: None,
        name: read_field(r.street),
        suftype: None,
        sufdir: None,
        ruralroute: None,
        extra,
        city: read_field(r.city),
        state: read_field(r.st),
        country: read_field(r.cc),
        postcode,
        box_: None,
        unit: None,
    }
}

/// The error answered when the splitter returned no record.
pub open spec fn parse_null_text() -> Seq<char> {
    "PAGC: pagc_parse_address returned NULL"@
}

/// First step of a parse call: the C string buffer to hand to the
/// splitter, or the error for an input that holds a NUL character.
pub fn parse_request(addr: &str) -> (res: Result<Vec<u8>, String>)
    ensures
        match res {
            Ok(v) => c_input(addr@, "invalid address: "@) == Ok::<Seq<u8>, Seq<char>>(v@),
            Err(e) => c_input(addr@, "invalid address: "@) == Err::<Seq<u8>, Seq<char>>(e@),
        },
{
    c_string_input(addr, "invalid address: ")
}

/// Last step of a parse call: the splitter's record packed as an address,
/// or the error for a call that returned no record.
pub fn parse_finish(reply: Option<RawAddress>) -> (res: Result<StandardizedAddress, String>)
    ensures
        match reply {
            None => res matches Err(e) && e@ == parse_null_text(),
            Some(r) => res matches Ok(a) && a@ == parsed_model(r) && no_empty_component(a@),
        },
{
    match reply {
        None => Err(String::from_str("PAGC: pagc_parse_address returned NULL")),
        Some(r) => Ok(address_from_parsed(r)),
    }
}

/// The house number, name, city, state and country of a parse result are
/// the splitter's `num`, `street`, `city`, `st` and `cc` fields, each read on
/// its own: absent when NULL or empty, its text otherwise.
pub proof fn lemma_parsed_reads_fields(r: RawAddress)
    ensures
        parsed_model(r).house_num == field_text(bytes_view(r.num)),
        parsed_model(r).name == field_text(bytes_view(r.street)),
        parsed_model(r).city == field_text(bytes_view(r.city)),
        parsed_model(r).state == field_text(bytes_view(r.st)),
        parsed_model(r).country == field_text(bytes_view(r.cc)),
{
}

/// The postcode of a parse result depends on the zip and plus-four alone:
/// both present give "zip-plus4"; one present gives that one; neither gives
/// none.
pub proof fn lemma_parsed_postcode(r: RawAddress)
    ensures
        ({
            let z = field_text(bytes_view(r.zip));
            let p = field_text(bytes_view(r.zipplus));
            let pc = parsed_model(r).postcode;
            &&& (z matches Some(zt) ==> (p matches Some(pt) ==> pc == Some(zt + "-"@ + pt)))
            &&& (z matches Some(zt) ==> (p is None ==> pc == Some(zt)))
            &&& (z is None ==> pc == p)
        }),
{
}

/// The extra component of a parse result is the second street line where
/// there is one; otherwise the whole cleaned input where the splitter split
/// neither house number nor street; otherwise absent.
pub proof fn lemma_parsed_extra(r: RawAddress)
    ensures
        field_text(bytes_view(r.street2)) is Some ==> parsed_model(r).extra == field_text(
            bytes_view(r.street2),
        ),
        field_text(bytes_view(r.street2)) is None && r.num is None && r.street is None
            ==> parsed_model(r).extra == field_text(bytes_view(r.address1)),
        field_text(bytes_view(r.street2)) is None && !(r.num is None && r.street is None)
            ==> parsed_model(r).extra is None,
{
}

/// In a parse result the components that the splitter knows nothing of
/// are absent.
pub proof fn lemma_parsed_shape(r: RawAddress)
    ensures
        parsed_model(r).building is None,
        parsed_model(r).predir is None,
        parsed_model(r).qual is None,
        parsed_model(r).pretype is None,
        parsed_model(r).suftype is None,
        parsed_model(r).sufdir is None,
        parsed_model(r).ruralroute is None,
        parsed_model(r).box_ is None,
        parsed_model(r).unit is None,
{
}

} // verus!
