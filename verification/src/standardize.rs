//! The decisions around one call of PAGC's standardize entry point.
//!
//! The engine runs outside this crate. A caller asks
//! `standardize_mm_request` what to hand to the engine (or which error to
//! answer at once), makes the call, and hands the engine's raw record to
//! `standardize_mm_finish`, which answers the result.

use vstd::prelude::*;
use vstd::string::*;

use crate::address::{no_empty_component, AddressModel, StandardizedAddress};
use crate::cstr::{
    bytes_view, c_input, c_string_input, field_text, lemma_encode_nul_free, read_field,
};
use vstd::utf8::encode_utf8;

verus! {

/// The sixteen fields of PAGC's `STDADDR` record as the engine returned
/// them: the bytes of each C string, `None` where the field was NULL.
pub struct RawStdaddr {
    pub building: Option<Vec<u8>>,
    pub house_num: Option<Vec<u8>>,
    pub predir: Option<Vec<u8>>,
    pub qual: Option<Vec<u8>>,
    pub pretype: Option<Vec<u8>>,
    pub name: Option<Vec<u8>>,
    pub suftype: Option<Vec<u8>>,
    pub sufdir: Option<Vec<u8>>,
    pub ruralroute: Option<Vec<u8>>,
    pub extra: Option<Vec<u8>>,
    pub city: Option<Vec<u8>>,
    pub state: Option<Vec<u8>>,
    pub country: Option<Vec<u8>>,
    pub postcode: Option<Vec<u8>>,
    pub box_: Option<Vec<u8>>,
    pub unit: Option<Vec<u8>>,
}

/// The address that a raw `STDADDR` record stands for: each field read as
/// text, NULL and empty fields absent.
pub open spec fn stdaddr_model(r: RawStdaddr) -> AddressModel {
    AddressModel {
        building: field_text(bytes_view(r.building)),
        house_num: field_text(bytes_view(r.house_num)),
        predir: field_text(bytes_view(r.predir)),
        qual: field_text(bytes_view(r.qual)),
        pretype: field_text(bytes_view(r.pretype)),
        name: field_text(bytes_view(r.name)),
        suftype: field_text(bytes_view(r.suftype)),
        sufdir: field_text(bytes_view(r.sufdir)),
        ruralroute: field_text(bytes_view(r.ruralroute)),
        extra: field_text(bytes_view(r.extra)),
        city: field_text(bytes_view(r.city)),
        state: field_text(bytes_view(r.state)),
        country: field_text(bytes_view(r.country)),
        postcode: field_text(bytes_view(r.postcode)),
        box_: field_text(bytes_view(r.box_)),
        unit: field_text(bytes_view(r.unit)),
    }
}

/// Reads every field of a raw `STDADDR` record. The address has no empty
/// component: NULL and empty fields are absent, and any other field is
/// present.
pub fn address_from_stdaddr(r: RawStdaddr) -> (a: StandardizedAddress)
    ensures
        a@ == stdaddr_model(r),
        no_empty_component(a@),
{
    StandardizedAddress {
        building: read_field(r.building),
        house_num: read_field(r.house_num),
        predir: read_field(r.predir),
        qual: read_field(r.qual),
        pretype: read_field(r.pretype),
        name: read_field(r.name),
        suftype: read_field(r.suftype),
        sufdir: read_field(r.sufdir),
        ruralroute: read_field(r.ruralroute),
        extra: read_field(r.extra),
        city: read_field(r.city),
        state: read_field(r.state),
        country: read_field(r.country),
        postcode: read_field(r.postcode),
        box_: read_field(r.box_),
        unit: read_field(r.unit),
    }
}

/// A standardize call answers the first error that applies: engine not
/// built, then a NUL in the address line, then a NUL in the city/state/zip
/// half; each input error is the one its C string check gives (see
/// `lemma_c_input_cases`).
pub proof fn lemma_plan_errors(engine_built: bool, micro: Seq<char>, macro_addr: Option<Seq<char>>)
    ensures
        !engine_built ==> standardize_plan(engine_built, micro, macro_addr) == Err::<
            (Seq<u8>, Option<Seq<u8>>),
            Seq<char>,
        >(build_failure_text()),
        engine_built ==> (c_input(micro, "invalid micro: "@) matches Err(e) ==> standardize_plan(
            engine_built,
            micro,
            macro_addr,
        ) == Err::<(Seq<u8>, Option<Seq<u8>>), Seq<char>>(e)),
        engine_built && c_input(micro, "invalid micro: "@) is Ok ==> (macro_addr matches Some(x)
            ==> (c_input(x, "invalid macro: "@) matches Err(e) ==> standardize_plan(
            engine_built,
            micro,
            macro_addr,
        ) == Err::<(Seq<u8>, Option<Seq<u8>>), Seq<char>>(e))),
{
}

/// Each component of a standardize result is the engine's field of the same
/// name, read on its own: absent when that field is NULL or empty, its text
/// otherwise, whatever the other fields hold.
pub proof fn lemma_stdaddr_reads_each_field(r: RawStdaddr)
    ensures
        stdaddr_model(r).building == field_text(bytes_view(r.building)),
        stdaddr_model(r).house_num == field_text(bytes_view(r.house_num)),
        stdaddr_model(r).predir == field_text(bytes_view(r.predir)),
        stdaddr_model(r).qual == field_text(bytes_view(r.qual)),
        stdaddr_model(r).pretype == field_text(bytes_view(r.pretype)),
        stdaddr_model(r).name == field_text(bytes_view(r.name)),
        stdaddr_model(r).suftype == field_text(bytes_view(r.suftype)),
        stdaddr_model(r).sufdir == field_text(bytes_view(r.sufdir)),
        stdaddr_model(r).ruralroute == field_text(bytes_view(r.ruralroute)),
        stdaddr_model(r).extra == field_text(bytes_view(r.extra)),
        stdaddr_model(r).city == field_text(bytes_view(r.city)),
        stdaddr_model(r).state == field_text(bytes_view(r.state)),
        stdaddr_model(r).country == field_text(bytes_view(r.country)),
        stdaddr_model(r).postcode == field_text(bytes_view(r.postcode)),
        stdaddr_model(r).box_ == field_text(bytes_view(r.box_)),
        stdaddr_model(r).unit == field_text(bytes_view(r.unit)),
{
}

/// Two engine records that agree on one field give results that agree on
/// the component of that name.
pub proof fn lemma_stdaddr_fields_independent(r: RawStdaddr, q: RawStdaddr)
    ensures
        bytes_view(r.building) == bytes_view(q.building) ==> stdaddr_model(r).building == stdaddr_model(q).building,
        bytes_view(r.house_num) == bytes_view(q.house_num) ==> stdaddr_model(r).house_num == stdaddr_model(q).house_num,
        bytes_view(r.predir) == bytes_view(q.predir) ==> stdaddr_model(r).predir == stdaddr_model(q).predir,
        bytes_view(r.qual) == bytes_view(q.qual) ==> stdaddr_model(r).qual == stdaddr_model(q).qual,
        bytes_view(r.pretype) == bytes_view(q.pretype) ==> stdaddr_model(r).pretype == stdaddr_model(q).pretype,
        bytes_view(r.name) == bytes_view(q.name) ==> stdaddr_model(r).name == stdaddr_model(q).name,
        bytes_view(r.suftype) == bytes_view(q.suftype) ==> stdaddr_model(r).suftype == stdaddr_model(q).suftype,
        bytes_view(r.sufdir) == bytes_view(q.sufdir) ==> stdaddr_model(r).sufdir == stdaddr_model(q).sufdir,
        bytes_view(r.ruralroute) == bytes_view(q.ruralroute) ==> stdaddr_model(r).ruralroute == stdaddr_model(q).ruralroute,
        bytes_view(r.extra) == bytes_view(q.extra) ==> stdaddr_model(r).extra == stdaddr_model(q).extra,
        bytes_view(r.city) == bytes_view(q.city) ==> stdaddr_model(r).city == stdaddr_model(q).city,
        bytes_view(r.state) == bytes_view(q.state) ==> stdaddr_model(r).state == stdaddr_model(q).state,
        bytes_view(r.country) == bytes_view(q.country) ==> stdaddr_model(r).country == stdaddr_model(q).country,
        bytes_view(r.postcode) == bytes_view(q.postcode) ==> stdaddr_model(r).postcode == stdaddr_model(q).postcode,
        bytes_view(r.box_) == bytes_view(q.box_) ==> stdaddr_model(r).box_ == stdaddr_model(q).box_,
        bytes_view(r.unit) == bytes_view(q.unit) ==> stdaddr_model(r).unit == stdaddr_model(q).unit,
{
    lemma_stdaddr_reads_each_field(r);
    lemma_stdaddr_reads_each_field(q);
}

/// The buffers for one call of the engine's standardize entry point: the
/// address line (`micro`) and the optional city/state/zip half (`macro`).
/// Those made by `standardize_mm_request` hold no zero byte
/// (`lemma_plan_accepts`).
pub struct StandardizeInput {
    pub micro: Vec<u8>,
    pub macro_addr: Option<Vec<u8>>,
}

/// The texts of an optional string slice.
pub open spec fn str_view(s: Option<&str>) -> Option<Seq<char>> {
    match s {
        Some(t) => Some(t@),
        None => None,
    }
}

/// The error answered when the engine could not be built from its tables.
pub open spec fn build_failure_text() -> Seq<char> {
    "PAGC: failed to build standardizer from bundled lex/gaz/rules"@
}

/// The error answered when the engine returned no record.
pub open spec fn standardize_null_text() -> Seq<char> {
    "PAGC: std_standardize_mm returned NULL"@
}

/// What a standardize call with the given inputs hands to the engine: the
/// two C string buffers, or the first error that applies (engine not
/// built; NUL in the address line; NUL in the city/state/zip half).
pub open spec fn standardize_plan(
    engine_built: bool,
    micro: Seq<char>,
    macro_addr: Option<Seq<char>>,
) -> Result<(Seq<u8>, Option<Seq<u8>>), Seq<char>> {
    if !engine_built {
        Err(build_failure_text())
    } else {
        match c_input(micro, "invalid micro: "@) {
            Err(e) => Err(e),
            Ok(m) => match macro_addr {
                None => Ok((m, None)),
                Some(x) => match c_input(x, "invalid macro: "@) {
                    Err(e) => Err(e),
                    Ok(y) => Ok((m, Some(y))),
                },
            },
        }
    }
}

/// Whether a request answer agrees with the plan.
pub open spec fn answers_plan(
    res: Result<StandardizeInput, String>,
    plan: Result<(Seq<u8>, Option<Seq<u8>>), Seq<char>>,
) -> bool {
    match res {
        Ok(i) => plan == Ok::<(Seq<u8>, Option<Seq<u8>>), Seq<char>>((i.micro@, bytes_view(i.macro_addr))),
        Err(e) => plan == Err::<(Seq<u8>, Option<Seq<u8>>), Seq<char>>(e@),
    }
}

/// First step of standardizing with an explicit micro/macro split, as
/// PostGIS's five-argument `standardize_address` does: checks that the
/// engine was built and that both halves can be C strings, and gives the
/// buffers to hand to the engine. `macro_addr` is `None` for the
/// one-argument form.
pub fn standardize_mm_request(engine_built: bool, micro: &str, macro_addr: Option<&str>) -> (res:
    Result<StandardizeInput, String>)
    ensures
        answers_plan(res, standardize_plan(engine_built, micro@, str_view(macro_addr))),
{
    if !engine_built {
        return Err(String::from_str("PAGC: failed to build standardizer from bundled lex/gaz/rules"));
    }
    let m = match c_string_input(micro, "invalid micro: ") {
        Ok(m) => m,
        Err(e) => return Err(e),
    };
    let x = match macro_addr {
        None => None,
        Some(t) => match c_string_input(t, "invalid macro: ") {
            Ok(y) => Some(y),
            Err(e) => return Err(e),
        },
    };
    Ok(StandardizeInput { micro: m, macro_addr: x })
}

/// First step of standardizing a single address line: the same as
/// `standardize_mm_request` with no city/state/zip half.
pub fn standardize_request(engine_built: bool, addr: &str) -> (res: Result<StandardizeInput, String>)
    ensures
        answers_plan(res, standardize_plan(engine_built, addr@, None)),
{
    standardize_mm_request(engine_built, addr, None)
}

/// Last step of a standardize call: the engine's record read as an
/// address, or the error for a call that returned no record.
pub fn standardize_mm_finish(reply: Option<RawStdaddr>) -> (res: Result<StandardizedAddress, String>)
    ensures
        match reply {
            None => res matches Err(e) && e@ == standardize_null_text(),
            Some(r) => res matches Ok(a) && a@ == stdaddr_model(r) && no_empty_component(a@),
        },
{
    match reply {
        None => Err(String::from_str("PAGC: std_standardize_mm returned NULL")),
        Some(r) => Ok(address_from_stdaddr(r)),
    }
}

/// A standardize call reaches the engine exactly when the engine was built
/// and neither half of the address holds a NUL character; the buffers it
/// hands over are then the UTF-8 encodings of the two halves, free of zero
/// bytes.
pub proof fn lemma_plan_accepts(engine_built: bool, micro: Seq<char>, macro_addr: Option<Seq<char>>)
    ensures
        standardize_plan(engine_built, micro, macro_addr) is Ok <==> engine_built && !micro.contains(
            '\0',
        ) && (macro_addr matches Some(x) ==> !x.contains('\0')),
        standardize_plan(engine_built, micro, macro_addr) matches Ok((m, y)) ==> {
            &&& m == encode_utf8(micro)
            &&& !m.contains(0u8)
            &&& y == match macro_addr {
                Some(x) => Some(encode_utf8(x)),
                None => None::<Seq<u8>>,
            }
            &&& (y matches Some(yb) ==> !yb.contains(0u8))
        },
{
    lemma_encode_nul_free(micro);
    if let Some(x) = macro_addr {
        lemma_encode_nul_free(x);
    }
}

} // verus!
