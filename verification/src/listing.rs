//! A listing: one described available unit.  A listing is identified by its
//! full attribute tuple — if any descriptive field differs, it is a
//! different listing.

use vstd::prelude::*;
use vstd::string::StringExecFns;

use crate::city::City;
use crate::text::spec_some_or_unknown;
use crate::text::is_some_or_unknown_str;

verus! {

/// The mathematical value of a listing: every descriptive field as plain
/// text, the city as itself.
#[verifier::ext_equal]
pub ghost struct HouseView {
    pub name: Seq<char>,
    pub url: Option<Seq<char>>,
    pub city: City,
    pub size_meter_squared: Option<Seq<char>>,
    pub floor: Option<Seq<char>>,
    pub minimum_stay: Option<Seq<char>>,
    pub price: Option<Seq<char>>,
    pub start_date: Option<Seq<char>>,
    pub contract_duration: Option<Seq<char>>,
}

/// One available unit, as shown to subscribers.  Equality is by the full
/// attribute tuple.
#[derive(Debug)]
pub struct House {
    pub name: String,
    pub url: Option<String>,
    pub city: City,
    pub size_meter_squared: Option<String>,
    pub floor: Option<String>,
    pub minimum_stay: Option<String>,
    pub price: Option<String>,
    pub start_date: Option<String>,
    pub contract_duration: Option<String>,
}

impl View for House {
    type V = HouseView;

    open spec fn view(&self) -> HouseView {
        HouseView {
            name: self.name@,
            url: self.url.deep_view(),
            city: self.city,
            size_meter_squared: self.size_meter_squared.deep_view(),
            floor: self.floor.deep_view(),
            minimum_stay: self.minimum_stay.deep_view(),
            price: self.price.deep_view(),
            start_date: self.start_date.deep_view(),
            contract_duration: self.contract_duration.deep_view(),
        }
    }
}

/// Whether two optional text fields carry the same text.
fn opt_text_eq(a: &Option<String>, b: &Option<String>) -> (r: bool)
    ensures
        r == (a.deep_view() == b.deep_view()),
{
    match (a, b) {
        (Some(x), Some(y)) => *x == *y,
        (None, None) => true,
        _ => false,
    }
}

/// Copies an optional text field.
fn opt_text_clone(a: &Option<String>) -> (r: Option<String>)
    ensures
        r == *a,
{
    match a {
        Some(x) => Some(x.clone()),
        None => None,
    }
}

impl PartialEq for House {
    fn eq(&self, other: &House) -> (r: bool) {
        self.name == other.name && opt_text_eq(&self.url, &other.url) && self.city == other.city
            && opt_text_eq(&self.size_meter_squared, &other.size_meter_squared) && opt_text_eq(
            &self.floor,
            &other.floor,
        ) && opt_text_eq(&self.minimum_stay, &other.minimum_stay) && opt_text_eq(
            &self.price,
            &other.price,
        ) && opt_text_eq(&self.start_date, &other.start_date) && opt_text_eq(
            &self.contract_duration,
            &other.contract_duration,
        )
    }
}

impl vstd::std_specs::cmp::PartialEqSpecImpl for House {
    open spec fn obeys_eq_spec() -> bool {
        true
    }

    open spec fn eq_spec(&self, other: &House) -> bool {
        self@ == other@
    }
}

impl Clone for House {
    fn clone(&self) -> (r: Self)
        ensures
            r == *self,
    {
        House {
            name: self.name.clone(),
            url: opt_text_clone(&self.url),
            city: self.city,
            size_meter_squared: opt_text_clone(&self.size_meter_squared),
            floor: opt_text_clone(&self.floor),
            minimum_stay: opt_text_clone(&self.minimum_stay),
            price: opt_text_clone(&self.price),
            start_date: opt_text_clone(&self.start_date),
            contract_duration: opt_text_clone(&self.contract_duration),
        }
    }
}

/// The one-line description of a listing, exactly as a notification
/// carries it.
pub open spec fn spec_house_text(h: HouseView) -> Seq<char> {
    h.city.spec_name() + ": "@ + h.name + " size: "@ + spec_some_or_unknown(h.size_meter_squared)
        + " m2, floor: "@ + spec_some_or_unknown(h.floor) + ", minimum_stay: "@
        + spec_some_or_unknown(h.minimum_stay) + ", price: "@ + spec_some_or_unknown(h.price)
        + " euros, start_date: "@ + spec_some_or_unknown(h.start_date) + ", contract_duration: "@
        + spec_some_or_unknown(h.contract_duration) + ", link: "@ + spec_some_or_unknown(h.url)
}

impl House {
    pub fn new(
        name: String,
        url: Option<String>,
        city: City,
        size_meter_squared: Option<String>,
        floor: Option<String>,
        minimum_stay: Option<String>,
        price: Option<String>,
        start_date: Option<String>,
        contract_duration: Option<String>,
    ) -> (r: House)
        ensures
            r.name == name,
            r.url == url,
            r.city == city,
            r.size_meter_squared == size_meter_squared,
            r.floor == floor,
            r.minimum_stay == minimum_stay,
            r.price == price,
            r.start_date == start_date,
            r.contract_duration == contract_duration,
    {
        House { name, url, city, size_meter_squared, floor, minimum_stay, price, start_date, contract_duration }
    }

    /// Renders the listing as one line of text, as `spec_house_text`
    /// describes.
    pub fn text(&self) -> (r: String)
        ensures
            r@ == spec_house_text(self@),
    {
        let mut s = self.city.name();
        s.append(": ");
        s.append(self.name.as_str());
        s.append(" size: ");
        s.append(is_some_or_unknown_str(&self.size_meter_squared).as_str());
        s.append(" m2, floor: ");
        s.append(is_some_or_unknown_str(&self.floor).as_str());
        s.append(", minimum_stay: ");
        s.append(is_some_or_unknown_str(&self.minimum_stay).as_str());
        s.append(", price: ");
        s.append(is_some_or_unknown_str(&self.price).as_str());
        s.append(" euros, start_date: ");
        s.append(is_some_or_unknown_str(&self.start_date).as_str());
        s.append(", contract_duration: ");
        s.append(is_some_or_unknown_str(&self.contract_duration).as_str());
        s.append(", link: ");
        s.append(is_some_or_unknown_str(&self.url).as_str());
        s
    }
}

} // verus!
