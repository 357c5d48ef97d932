//! The standardized address record and its mathematical model.

use vstd::prelude::*;

verus! {

/// A standardized US address: PAGC's sixteen `STDADDR` components, each
/// absent or a text. The addresses this library reads from the engine have
/// no empty component (`no_empty_component`).
#[derive(Debug, Clone, PartialEq, Eq)]
pub struct StandardizedAddress {
    pub building: Option<String>,
    pub house_num: Option<String>,
    pub predir: Option<String>,
    pub qual: Option<String>,
    pub pretype: Option<String>,
    pub name: Option<String>,
    pub suftype: Option<String>,
    pub sufdir: Option<String>,
    pub ruralroute: Option<String>,
    pub extra: Option<String>,
    pub city: Option<String>,
    pub state: Option<String>,
    pub country: Option<String>,
    pub postcode: Option<String>,
    pub box_: Option<String>,
    pub unit: Option<String>,
}

/// The model of a `StandardizedAddress`: each component as a character
/// sequence, or `None`.
#[verifier::ext_equal]
pub struct AddressModel {
    pub building: Option<Seq<char>>,
    pub house_num: Option<Seq<char>>,
    pub predir: Option<Seq<char>>,
    pub qual: Option<Seq<char>>,
    pub pretype: Option<Seq<char>>,
    pub name: Option<Seq<char>>,
    pub suftype: Option<Seq<char>>,
    pub sufdir: Option<Seq<char>>,
    pub ruralroute: Option<Seq<char>>,
    pub extra: Option<Seq<char>>,
    pub city: Option<Seq<char>>,
    pub state: Option<Seq<char>>,
    pub country: Option<Seq<char>>,
    pub postcode: Option<Seq<char>>,
    pub box_: Option<Seq<char>>,
    pub unit: Option<Seq<char>>,
}

impl View for StandardizedAddress {
    type V = AddressModel;

    open spec fn view(&self) -> AddressModel {
        AddressModel {
            building: self.building.deep_view(),
            house_num: self.house_num.deep_view(),
            predir: self.predir.deep_view(),
            qual: self.qual.deep_view(),
            pretype: self.pretype.deep_view(),
            name: self.name.deep_view(),
            suftype: self.suftype.deep_view(),
            sufdir: self.sufdir.deep_view(),
            ruralroute: self.ruralroute.deep_view(),
            extra: self.extra.deep_view(),
            city: self.city.deep_view(),
            state: self.state.deep_view(),
            country: self.country.deep_view(),
            postcode: self.postcode.deep_view(),
            box_: self.box_.deep_view(),
            unit: self.unit.deep_view(),
        }
    }
}

/// The model with every component absent.
pub open spec fn empty_model() -> AddressModel {
    AddressModel {
        building: None,
        house_num: None,
        predir: None,
        qual: None,
        pretype: None,
        name: None,
        suftype: None,
        sufdir: None,
        ruralroute: None,
        extra: None,
        city: None,
        state: None,
        country: None,
        postcode: None,
        box_: None,
        unit: None,
    }
}

/// A component is absent or holds at least one character.
pub open spec fn present_or_absent(c: Option<Seq<char>>) -> bool {
    c matches Some(t) ==> t.len() > 0
}

/// No component of the address is an empty text.
pub open spec fn no_empty_component(a: AddressModel) -> bool {
    &&& present_or_absent(a.building)
    &&& present_or_absent(a.house_num)
    &&& present_or_absent(a.predir)
    &&& present_or_absent(a.qual)
    &&& present_or_absent(a.pretype)
    &&& present_or_absent(a.name)
    &&& present_or_absent(a.suftype)
    &&& present_or_absent(a.sufdir)
    &&& present_or_absent(a.ruralroute)
    &&& present_or_absent(a.extra)
    &&& present_or_absent(a.city)
    &&& present_or_absent(a.state)
    &&& present_or_absent(a.country)
    &&& present_or_absent(a.postcode)
    &&& present_or_absent(a.box_)
    &&& present_or_absent(a.unit)
}

impl Default for StandardizedAddress {
    fn default() -> (a: Self)
        ensures
            a@ == empty_model(),
    {
        StandardizedAddress {
            building: None,
            house_num: None,
            predir: None,
            qual: None,
            pretype: None,
            name: None,
            suftype: None,
            sufdir: None,
            ruralroute: None,
            extra: None,
            city: None,
            state: None,
            country: None,
            postcode: None,
            box_: None,
            unit: None,
        }
    }
}

} // verus!
