//! The listing feed's data, modelled as plain values, and the verified
//! conversion from a fetched page to the listings shown to subscribers.
//! The network call itself, and the JSON deserialization into the plain
//! model, happen outside; everything the feed's answer decides is here.

use vstd::prelude::*;
use vstd::string::StringExecFns;

use chrono::Datelike;

use crate::city::City;
use crate::city::CityId;
use crate::listing::House;
use crate::listing::HouseView;
use crate::text::month_name;
use crate::text::spec_decimal;
use crate::text::spec_decimal_signed;
use crate::text::spec_month_name;
use crate::text::i64_to_string;
use crate::text::u64_to_string;

verus! {

/// What can go wrong between asking the feed for listings and having them
/// in hand.  Outside failures are carried as their rendered text.
#[derive(Debug)]
pub enum Holland2StayError {
    ReqwestError(String),
    ConversionError(String),
    SerdeJsonError(String),
    FromStrError(String),
}

impl Clone for Holland2StayError {
    fn clone(&self) -> (r: Self)
        ensures
            r == *self,
    {
        match self {
            Holland2StayError::ReqwestError(s) => Holland2StayError::ReqwestError(s.clone()),
            Holland2StayError::ConversionError(s) => Holland2StayError::ConversionError(s.clone()),
            Holland2StayError::SerdeJsonError(s) => Holland2StayError::SerdeJsonError(s.clone()),
            Holland2StayError::FromStrError(s) => Holland2StayError::FromStrError(s.clone()),
        }
    }
}

impl Holland2StayError {
    /// The error as one line of text.
    pub fn text(&self) -> (r: String)
        ensures
            r@ == match *self {
                Holland2StayError::ReqwestError(s) => s@,
                Holland2StayError::ConversionError(s) => "Conversion error: "@ + s@,
                Holland2StayError::SerdeJsonError(s) => s@,
                Holland2StayError::FromStrError(s) => s@,
            },
    {
        match self {
            Holland2StayError::ReqwestError(s) => s.clone(),
            Holland2StayError::ConversionError(s) => {
                let mut t = "Conversion error: ".to_owned();
                t.append(s.as_str());
                t
            }
            Holland2StayError::SerdeJsonError(s) => s.clone(),
            Holland2StayError::FromStrError(s) => s.clone(),
        }
    }
}

/// The body of the feed query for one city: a fixed frame around the
/// city's numeric identifier.
pub fn get_graphql_query(city_id: CityId) -> (r: String)
    ensures
        r@ == r#"{ "operationName": "GetCategories", "variables": { "currentPage": 1, "filters": { "available_to_book": { "eq": "179" }, "category_uid": { "eq": "Nw==" }, "city": { "eq": ""#@
            + spec_decimal(city_id.spec_value() as nat)
            + r#"" } }, "pageSize": 100, "sort": { "available_startdate": "ASC" } }, "query": "query GetCategories($pageSize: Int!, $currentPage: Int!, $filters: ProductAttributeFilterInput!, $sort: ProductAttributeSortInput) { products( pageSize: $pageSize, currentPage: $currentPage, filter: $filters, sort: $sort ) { ...ProductsFragment, __typename } } fragment ProductsFragment on Products { sort_fields { options { label, value, __typename }, __typename }, aggregations { label, count, attribute_code, options { label, count, value, __typename }, position, __typename }, items { name, sku, city, url_key, available_to_book, available_startdate, next_contract_startdate, current_lottery_subscribers, building_name, finishing, living_area, no_of_rooms, resident_type, offer_text_two, offer_text, maximum_number_of_persons, type_of_contract, price_analysis_text, allowance_price, floor, basic_rent, lumpsum_service_charge, inventory, caretaker_costs, cleaning_common_areas, energy_common_areas, energy_label, minimum_stay, allowance_price, price_range { minimum_price { regular_price { value, currency, __typename }, final_price { value, currency, __typename }, __typename }, maximum_price { regular_price { value, currency, __typename }, final_price { value, currency, __typename }, __typename }, __typename } , __typename }, total_count, __typename }" }"#@,
{
    let mut s =
        r#"{ "operationName": "GetCategories", "variables": { "currentPage": 1, "filters": { "available_to_book": { "eq": "179" }, "category_uid": { "eq": "Nw==" }, "city": { "eq": ""#.to_owned();
    s.append(u64_to_string(city_id.value()).as_str());
    s.append(
        r#"" } }, "pageSize": 100, "sort": { "available_startdate": "ASC" } }, "query": "query GetCategories($pageSize: Int!, $currentPage: Int!, $filters: ProductAttributeFilterInput!, $sort: ProductAttributeSortInput) { products( pageSize: $pageSize, currentPage: $currentPage, filter: $filters, sort: $sort ) { ...ProductsFragment, __typename } } fragment ProductsFragment on Products { sort_fields { options { label, value, __typename }, __typename }, aggregations { label, count, attribute_code, options { label, count, value, __typename }, position, __typename }, items { name, sku, city, url_key, available_to_book, available_startdate, next_contract_startdate, current_lottery_subscribers, building_name, finishing, living_area, no_of_rooms, resident_type, offer_text_two, offer_text, maximum_number_of_persons, type_of_contract, price_analysis_text, allowance_price, floor, basic_rent, lumpsum_service_charge, inventory, caretaker_costs, cleaning_common_areas, energy_common_areas, energy_label, minimum_stay, allowance_price, price_range { minimum_price { regular_price { value, currency, __typename }, final_price { value, currency, __typename }, __typename }, maximum_price { regular_price { value, currency, __typename }, final_price { value, currency, __typename }, __typename }, __typename } , __typename }, total_count, __typename }" }"#,
    );
    s
}

/// A JSON leaf as the feed sends it, with numbers already rendered as
/// text: what a field like `floor` or `type_of_contract` can hold.
pub enum JsonScalar {
    Text(String),
    Number(String),
    Boolean(bool),
    Null,
    Composite,
}

impl JsonScalar {
    /// The text a JSON leaf stands for: strings, numbers and booleans have
    /// one, null and composite values have none.
    pub open spec fn spec_rust_string(self) -> Option<Seq<char>> {
        match self {
            JsonScalar::Text(s) => Some(s@),
            JsonScalar::Number(n) => Some(n@),
            JsonScalar::Boolean(b) => Some(
                if b {
                    "true"@
                } else {
                    "false"@
                },
            ),
            JsonScalar::Null => None,
            JsonScalar::Composite => None,
        }
    }

    pub fn to_rust_string(&self) -> (r: Option<String>)
        ensures
            r.deep_view() == self.spec_rust_string(),
    {
        match self {
            JsonScalar::Text(s) => Some(s.clone()),
            JsonScalar::Number(n) => Some(n.clone()),
            JsonScalar::Boolean(b) => Some(
                if *b {
                    "true".to_owned()
                } else {
                    "false".to_owned()
                },
            ),
            JsonScalar::Null => None,
            JsonScalar::Composite => None,
        }
    }
}

/// One attribute option of the feed's aggregations: a raw value and the
/// label shown for it.
pub struct AttributeOption {
    pub label: String,
    pub value: String,
}

/// One aggregation: an attribute and its options.
pub struct Aggregation {
    pub attribute_code: String,
    pub options: Vec<AttributeOption>,
}

/// The label an option value maps to; with repeated values the last one
/// wins, as building a map by insertion makes it.
pub open spec fn spec_label_of(options: Seq<AttributeOption>, value: Seq<char>) -> Option<
    Seq<char>,
>
    decreases options.len(),
{
    if options.len() == 0 {
        None
    } else if options.last().value@ == value {
        Some(options.last().label@)
    } else {
        spec_label_of(options.drop_last(), value)
    }
}

/// The label an attribute's value maps to; with repeated attribute codes
/// the last aggregation wins, wholly.
pub open spec fn spec_agg_label(
    aggs: Seq<Aggregation>,
    code: Seq<char>,
    value: Seq<char>,
) -> Option<Seq<char>>
    decreases aggs.len(),
{
    if aggs.len() == 0 {
        None
    } else if aggs.last().attribute_code@ == code {
        spec_label_of(aggs.last().options@, value)
    } else {
        spec_agg_label(aggs.drop_last(), code, value)
    }
}

fn label_of(options: &Vec<AttributeOption>, value: &String) -> (r: Option<String>)
    ensures
        r.deep_view() == spec_label_of(options@, value@),
{
    let mut found: Option<String> = None;
    let mut j: usize = 0;
    while j < options.len()
        invariant
            0 <= j <= options@.len(),
            found.deep_view() == spec_label_of(options@.take(j as int), value@),
        decreases options@.len() - j,
    {
        if options[j].value == *value {
            found = Some(options[j].label.clone());
        }
        proof {
            assert(options@.take(j as int + 1).drop_last() =~= options@.take(j as int));
            assert(options@.take(j as int + 1).last() == options@[j as int]);
        }
        j = j + 1;
    }
    proof {
        assert(options@.take(options@.len() as int) =~= options@);
    }
    found
}

/// Looks an attribute value's label up in the fetched aggregations.
pub fn lookup_label(aggs: &Vec<Aggregation>, code: &String, value: &String) -> (r: Option<String>)
    ensures
        r.deep_view() == spec_agg_label(aggs@, code@, value@),
{
    let mut found: Option<String> = None;
    let mut j: usize = 0;
    while j < aggs.len()
        invariant
            0 <= j <= aggs@.len(),
            found.deep_view() == spec_agg_label(aggs@.take(j as int), code@, value@),
        decreases aggs@.len() - j,
    {
        if aggs[j].attribute_code == *code {
            found = label_of(&aggs[j].options, value);
        }
        proof {
            assert(aggs@.take(j as int + 1).drop_last() =~= aggs@.take(j as int));
            assert(aggs@.take(j as int + 1).last() == aggs@[j as int]);
        }
        j = j + 1;
    }
    proof {
        assert(aggs@.take(aggs@.len() as int) =~= aggs@);
    }
    found
}

/// The price part of one fetched listing, innermost value already rendered
/// as text.
pub struct MaximumPrice {
    pub final_price: Option<String>,
}

pub struct PriceRange {
    pub maximum_price: Option<MaximumPrice>,
}

/// One listing as the feed's page carries it, every field a plain value.
pub struct ApiHouse {
    pub name: String,
    pub url_key: String,
    pub living_area: Option<String>,
    pub floor: Option<JsonScalar>,
    pub minimum_stay: Option<String>,
    pub price_range: Option<PriceRange>,
    pub next_contract_startdate: Option<String>,
    pub type_of_contract: Option<JsonScalar>,
}

/// What `chrono` parses the feed's start-of-contract text into, with the
/// format `%Y-%m-%d %H:%M:%S`: the (year, month, day) triple, or nothing
/// when the text does not match the format.
pub uninterp spec fn spec_parsed_start_date(s: Seq<char>) -> Option<(int, int, int)>;

/// Relies on chrono::NaiveDateTime::parse_from_str with the fixed format
/// "%Y-%m-%d %H:%M:%S", and on chrono's Datelike::{year, month, day},
/// whose documentation bounds month by 1..=12 and day by 1..=31.  The
/// result depends on the text alone.
#[verifier::external_body]
fn parse_start_datetime(s: &str) -> (r: Option<(i32, u32, u32)>)
    ensures
        r is Some <==> spec_parsed_start_date(s@) is Some,
        r matches Some(ymd) ==> spec_parsed_start_date(s@) == Some(
            (ymd.0 as int, ymd.1 as int, ymd.2 as int),
        ) && 1 <= ymd.1 <= 12 && 1 <= ymd.2 <= 31,
{
    match chrono::NaiveDateTime::parse_from_str(s, "%Y-%m-%d %H:%M:%S") {
        Ok(dt) => Some((dt.year(), dt.month(), dt.day())),
        Err(_) => None,
    }
}

/// What `reqwest`'s URL type resolves a listing key to, under the fixed
/// residences base address; nothing when joining fails.
pub uninterp spec fn spec_residence_url(key: Seq<char>) -> Option<Seq<char>>;

/// Relies on reqwest::Url::parse and Url::join: the listing's page address
/// under "https://holland2stay.com/residences/", a function of the key
/// alone.  The fixed base always parses; a key that does not join yields
/// nothing.
#[verifier::external_body]
fn residence_url(url_key: &str) -> (r: Option<String>)
    ensures
        r.deep_view() == spec_residence_url(url_key@),
{
    match reqwest::Url::parse("https://holland2stay.com/residences/") {
        Ok(base) => match base.join(url_key) {
            Ok(u) => Some(u.as_str().to_owned()),
            Err(_) => None,
        },
        Err(_) => None,
    }
}

/// A start date as shown to subscribers: day, full month name, year.
pub open spec fn spec_start_date_text(ymd: (int, int, int)) -> Seq<char> {
    spec_decimal_signed(ymd.2) + " "@ + spec_month_name(ymd.1) + " "@ + spec_decimal_signed(ymd.0)
}

/// Renders a parsed date as `spec_start_date_text` describes.
pub fn format_start_date(y: i32, m: u32, d: u32) -> (r: String)
    requires
        1 <= m <= 12,
    ensures
        r@ == spec_start_date_text((y as int, m as int, d as int)),
{
    let mut s = u64_to_string(d as u64);
    s.append(" ");
    s.append(month_name(m));
    s.append(" ");
    s.append(i64_to_string(y as i64).as_str());
    s
}

/// The floor label of one fetched listing.
pub open spec fn spec_floor_label(aggs: Seq<Aggregation>, api: ApiHouse) -> Option<Seq<char>> {
    match api.floor {
        Some(v) => match v.spec_rust_string() {
            Some(key) => spec_agg_label(aggs, "floor"@, key),
            None => None,
        },
        None => None,
    }
}

/// The contract-duration label of one fetched listing.
pub open spec fn spec_contract_label(aggs: Seq<Aggregation>, api: ApiHouse) -> Option<Seq<char>> {
    match api.type_of_contract {
        Some(v) => match v.spec_rust_string() {
            Some(key) => spec_agg_label(aggs, "type_of_contract"@, key),
            None => None,
        },
        None => None,
    }
}

/// The price text of one fetched listing.
pub open spec fn spec_price_text(api: ApiHouse) -> Option<Seq<char>> {
    match api.price_range {
        Some(pr) => match pr.maximum_price {
            Some(mp) => mp.final_price.deep_view(),
            None => None,
        },
        None => None,
    }
}

/// Whether the start-of-contract field, if present at all, parses under
/// the feed's datetime format.  A present field that does not parse is a
/// malformed payload, and converting the entry fails.
pub open spec fn spec_date_ok(api: ApiHouse) -> bool {
    match api.next_contract_startdate {
        Some(s) => spec_parsed_start_date(s@) is Some,
        None => true,
    }
}

/// The start-date text of one fetched listing: its start-of-contract
/// field, parsed and shown as day, month name and year; nothing when the
/// field is missing.
pub open spec fn spec_start_date_label(api: ApiHouse) -> Option<Seq<char>> {
    match api.next_contract_startdate {
        Some(s) => match spec_parsed_start_date(s@) {
            Some(ymd) => Some(spec_start_date_text(ymd)),
            None => None,
        },
        None => None,
    }
}

/// The listing one fetched entry stands for.
pub open spec fn spec_house_from_api(city: City, aggs: Seq<Aggregation>, api: ApiHouse) -> HouseView {
    HouseView {
        name: api.name@,
        url: spec_residence_url(api.url_key@),
        city: city,
        size_meter_squared: api.living_area.deep_view(),
        floor: spec_floor_label(aggs, api),
        minimum_stay: api.minimum_stay.deep_view(),
        price: spec_price_text(api),
        start_date: spec_start_date_label(api),
        contract_duration: spec_contract_label(aggs, api),
    }
}

fn clone_opt_string(a: &Option<String>) -> (r: Option<String>)
    ensures
        r == *a,
{
    match a {
        Some(x) => Some(x.clone()),
        None => None,
    }
}

/// Converts one fetched entry into the listing shown to subscribers; a
/// start-of-contract text that does not parse is a malformed payload and
/// yields a conversion error.
pub fn house_from_api(city: City, aggs: &Vec<Aggregation>, api: &ApiHouse) -> (r: Result<
    House,
    Holland2StayError,
>)
    ensures
        match r {
            Ok(h) => spec_date_ok(*api) && h@ == spec_house_from_api(city, aggs@, *api),
            Err(e) => !spec_date_ok(*api) && (e matches Holland2StayError::ConversionError(m)
                && m@ == "Failed to parse datetime format"@),
        },
{
    let start_date: Option<String> = match &api.next_contract_startdate {
        Some(s) => match parse_start_datetime(s.as_str()) {
            Some(ymd) => Some(format_start_date(ymd.0, ymd.1, ymd.2)),
            None => {
                return Err(
                    Holland2StayError::ConversionError(
                        "Failed to parse datetime format".to_owned(),
                    ),
                );
            }
        },
        None => None,
    };
    let floor: Option<String> = match &api.floor {
        Some(v) => match v.to_rust_string() {
            Some(key) => lookup_label(aggs, &"floor".to_owned(), &key),
            None => None,
        },
        None => None,
    };
    let contract_duration: Option<String> = match &api.type_of_contract {
        Some(v) => match v.to_rust_string() {
            Some(key) => lookup_label(aggs, &"type_of_contract".to_owned(), &key),
            None => None,
        },
        None => None,
    };
    let price: Option<String> = match &api.price_range {
        Some(pr) => match &pr.maximum_price {
            Some(mp) => clone_opt_string(&mp.final_price),
            None => None,
        },
        None => None,
    };
    let url = residence_url(api.url_key.as_str());
    Ok(
        House::new(
            api.name.clone(),
            url,
            city,
            clone_opt_string(&api.living_area),
            floor,
            clone_opt_string(&api.minimum_stay),
            price,
            start_date,
            contract_duration,
        ),
    )
}

/// Converts a fetched page: each entry becomes one listing of the given
/// city, in order.  A malformed start-of-contract text anywhere in the
/// page fails the whole page, as a malformed payload does.
pub fn houses_from_api(city: City, aggs: &Vec<Aggregation>, api_houses: &Vec<ApiHouse>) -> (r:
    Result<Vec<House>, Holland2StayError>)
    ensures
        match r {
            Ok(v) => {
                &&& v@.len() == api_houses@.len()
                &&& forall|k: int|
                    0 <= k < api_houses@.len() ==> spec_date_ok(#[trigger] api_houses@[k])
                &&& forall|k: int|
                    0 <= k < v@.len() ==> (#[trigger] v@[k])@ == spec_house_from_api(
                        city,
                        aggs@,
                        api_houses@[k],
                    )
            },
            Err(e) => (exists|k: int|
                0 <= k < api_houses@.len() && !spec_date_ok(#[trigger] api_houses@[k])) && (
            e matches Holland2StayError::ConversionError(m) && m@
                == "Failed to parse datetime format"@),
        },
{
    let mut r: Vec<House> = Vec::new();
    let mut j: usize = 0;
    while j < api_houses.len()
        invariant
            0 <= j <= api_houses@.len(),
            r@.len() == j,
            forall|k: int| 0 <= k < j ==> spec_date_ok(#[trigger] api_houses@[k]),
            forall|k: int|
                0 <= k < j ==> (#[trigger] r@[k])@ == spec_house_from_api(
                    city,
                    aggs@,
                    api_houses@[k],
                ),
        decreases api_houses@.len() - j,
    {
        match house_from_api(city, aggs, &api_houses[j]) {
            Ok(h) => {
                r.push(h);
            }
            Err(e) => {
                return Err(e);
            }
        }
        j = j + 1;
    }
    Ok(r)
}

/// The listings of several per-city fetches, first to last, one after the
/// other.
pub open spec fn spec_concat_oks(rs: Seq<Result<Vec<House>, Holland2StayError>>) -> Seq<House>
    decreases rs.len(),
{
    if rs.len() == 0 {
        Seq::empty()
    } else {
        spec_concat_oks(rs.drop_last()) + (match rs.last() {
            Ok(v) => v@,
            Err(_) => Seq::empty(),
        })
    }
}

fn append_clones(acc: &mut Vec<House>, src: &Vec<House>)
    ensures
        final(acc)@ == old(acc)@ + src@,
{
    let mut j: usize = 0;
    while j < src.len()
        invariant
            0 <= j <= src@.len(),
            acc@ == old(acc)@ + src@.take(j as int),
        decreases src@.len() - j,
    {
        acc.push(src[j].clone());
        proof {
            assert(old(acc)@ + src@.take(j as int + 1) =~= (old(acc)@ + src@.take(j as int)).push(
                src@[j as int],
            ));
        }
        j = j + 1;
    }
    proof {
        assert(src@.take(src@.len() as int) =~= src@);
    }
}

/// Gathers the per-city query results into one: all listings in order when
/// every city's fetch succeeded, otherwise the first failure.
pub fn collect_city_results(results: &Vec<Result<Vec<House>, Holland2StayError>>) -> (r: Result<
    Vec<House>,
    Holland2StayError,
>)
    ensures
        match r {
            Ok(all) => (forall|k: int| 0 <= k < results@.len() ==> (#[trigger] results@[k]) is Ok)
                && all@ == spec_concat_oks(results@),
            Err(e) => exists|k: int|
                0 <= k < results@.len() && ((#[trigger] results@[k]) matches Err(e2) && e == e2)
                    && (forall|m: int| 0 <= m < k ==> (#[trigger] results@[m]) is Ok),
        },
{
    let mut acc: Vec<House> = Vec::new();
    let mut j: usize = 0;
    while j < results.len()
        invariant
            0 <= j <= results@.len(),
            forall|m: int| 0 <= m < j ==> (#[trigger] results@[m]) is Ok,
            acc@ == spec_concat_oks(results@.take(j as int)),
        decreases results@.len() - j,
    {
        match &results[j] {
            Ok(houses) => {
                append_clones(&mut acc, houses);
                proof {
                    assert(results@.take(j as int + 1).drop_last() =~= results@.take(j as int));
                    assert(results@.take(j as int + 1).last() == results@[j as int]);
                }
            }
            Err(e) => {
                let e2 = e.clone();
                proof {
                    assert(results@[j as int] matches Err(e3) && e2 == e3);
                }
                return Err(e2);
            }
        }
        j = j + 1;
    }
    proof {
        assert(results@.take(results@.len() as int) =~= results@);
    }
    Ok(acc)
}

} // verus!
