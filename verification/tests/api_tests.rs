use housewatch::api::{
    collect_city_results, get_graphql_query, house_from_api, houses_from_api, lookup_label,
    Aggregation, ApiHouse, AttributeOption, Holland2StayError, JsonScalar, MaximumPrice,
    PriceRange,
};
use housewatch::city::City;
use housewatch::listing::House;

#[test]
fn test_body() {
    let body = get_graphql_query(City::Eindhoven.id());
    println!("{}", body);
}

#[test]
fn query_carries_the_city_id() {
    let body = get_graphql_query(City::Eindhoven.id());
    let prefix = r#"{ "operationName": "GetCategories", "variables": { "currentPage": 1, "filters": { "available_to_book": { "eq": "179" }, "category_uid": { "eq": "Nw==" }, "city": { "eq": ""#;
    assert!(body.starts_with(prefix));
    assert!(body[prefix.len()..].starts_with("29"));
    let rotterdam = get_graphql_query(City::Rotterdam.id());
    assert!(rotterdam[prefix.len()..].starts_with("25"));
    let zoetermeer = get_graphql_query(City::Zoetermeer.id());
    assert!(zoetermeer[prefix.len()..].starts_with("6088"));
}

#[test]
fn json_scalar_texts() {
    assert_eq!(
        JsonScalar::Text("3rd".to_string()).to_rust_string(),
        Some("3rd".to_string())
    );
    assert_eq!(
        JsonScalar::Number("7".to_string()).to_rust_string(),
        Some("7".to_string())
    );
    assert_eq!(
        JsonScalar::Boolean(true).to_rust_string(),
        Some("true".to_string())
    );
    assert_eq!(
        JsonScalar::Boolean(false).to_rust_string(),
        Some("false".to_string())
    );
    assert_eq!(JsonScalar::Null.to_rust_string(), None);
    assert_eq!(JsonScalar::Composite.to_rust_string(), None);
}

fn floor_aggregations() -> Vec<Aggregation> {
    vec![
        Aggregation {
            attribute_code: "floor".to_string(),
            options: vec![
                AttributeOption {
                    label: "Ground floor".to_string(),
                    value: "0".to_string(),
                },
                AttributeOption {
                    label: "1st floor".to_string(),
                    value: "1".to_string(),
                },
            ],
        },
        Aggregation {
            attribute_code: "type_of_contract".to_string(),
            options: vec![AttributeOption {
                label: "Indefinite".to_string(),
                value: "21".to_string(),
            }],
        },
    ]
}

#[test]
fn label_lookup_finds_the_right_aggregation() {
    let aggs = floor_aggregations();
    assert_eq!(
        lookup_label(&aggs, &"floor".to_string(), &"1".to_string()),
        Some("1st floor".to_string())
    );
    assert_eq!(
        lookup_label(&aggs, &"type_of_contract".to_string(), &"21".to_string()),
        Some("Indefinite".to_string())
    );
    assert_eq!(lookup_label(&aggs, &"floor".to_string(), &"9".to_string()), None);
    assert_eq!(lookup_label(&aggs, &"energy".to_string(), &"1".to_string()), None);
}

#[test]
fn label_lookup_lets_the_last_duplicate_win() {
    let aggs = vec![
        Aggregation {
            attribute_code: "floor".to_string(),
            options: vec![AttributeOption {
                label: "old".to_string(),
                value: "1".to_string(),
            }],
        },
        Aggregation {
            attribute_code: "floor".to_string(),
            options: vec![AttributeOption {
                label: "new".to_string(),
                value: "1".to_string(),
            }],
        },
    ];
    assert_eq!(
        lookup_label(&aggs, &"floor".to_string(), &"1".to_string()),
        Some("new".to_string())
    );
}

#[test]
fn house_from_api_fills_every_field() {
    let aggs = floor_aggregations();
    let api = ApiHouse {
        name: "Some Street 12".to_string(),
        url_key: "some-street-12".to_string(),
        living_area: Some("50 m2".to_string()),
        floor: Some(JsonScalar::Number("1".to_string())),
        minimum_stay: Some("6 months".to_string()),
        price_range: Some(PriceRange {
            maximum_price: Some(MaximumPrice {
                final_price: Some("1200.5".to_string()),
            }),
        }),
        next_contract_startdate: Some("2024-07-05 14:30:00".to_string()),
        type_of_contract: Some(JsonScalar::Number("21".to_string())),
    };
    let h = house_from_api(City::Delft, &aggs, &api).unwrap();
    assert_eq!(h.name, "Some Street 12".to_string());
    assert_eq!(
        h.url,
        Some("https://holland2stay.com/residences/some-street-12".to_string())
    );
    assert!(h.city == City::Delft);
    assert_eq!(h.size_meter_squared, Some("50 m2".to_string()));
    assert_eq!(h.floor, Some("1st floor".to_string()));
    assert_eq!(h.minimum_stay, Some("6 months".to_string()));
    assert_eq!(h.price, Some("1200.5".to_string()));
    assert_eq!(h.start_date, Some("5 July 2024".to_string()));
    assert_eq!(h.contract_duration, Some("Indefinite".to_string()));
}

#[test]
fn house_from_api_leaves_unknowns_empty() {
    let aggs: Vec<Aggregation> = Vec::new();
    let api = ApiHouse {
        name: "Bare".to_string(),
        url_key: "bare".to_string(),
        living_area: None,
        floor: None,
        minimum_stay: None,
        price_range: Some(PriceRange { maximum_price: None }),
        next_contract_startdate: None,
        type_of_contract: Some(JsonScalar::Null),
    };
    let h = house_from_api(City::Rijswijk, &aggs, &api).unwrap();
    assert_eq!(h.size_meter_squared, None);
    assert_eq!(h.floor, None);
    assert_eq!(h.price, None);
    assert_eq!(h.start_date, None);
    assert_eq!(h.contract_duration, None);
}

#[test]
fn a_malformed_start_date_is_a_conversion_error() {
    let aggs: Vec<Aggregation> = Vec::new();
    let api = ApiHouse {
        name: "Bare".to_string(),
        url_key: "bare".to_string(),
        living_area: None,
        floor: None,
        minimum_stay: None,
        price_range: None,
        next_contract_startdate: Some("not a date".to_string()),
        type_of_contract: None,
    };
    let err = house_from_api(City::Rijswijk, &aggs, &api).unwrap_err();
    assert_eq!(err.text(), "Conversion error: Failed to parse datetime format".to_string());
    let err2 = houses_from_api(City::Rijswijk, &aggs, &vec![api]).unwrap_err();
    assert_eq!(err2.text(), "Conversion error: Failed to parse datetime format".to_string());
}

#[test]
fn houses_from_api_keeps_the_order() {
    let aggs: Vec<Aggregation> = Vec::new();
    let mk = |name: &str| ApiHouse {
        name: name.to_string(),
        url_key: name.to_string(),
        living_area: None,
        floor: None,
        minimum_stay: None,
        price_range: None,
        next_contract_startdate: None,
        type_of_contract: None,
    };
    let hs = houses_from_api(City::DenHaag, &aggs, &vec![mk("a"), mk("b")]).unwrap();
    assert_eq!(hs.len(), 2);
    assert_eq!(hs[0].name, "a".to_string());
    assert_eq!(hs[1].name, "b".to_string());
}

fn plain_house(name: &str, city: City) -> House {
    House::new(
        name.to_string(),
        None,
        city,
        None,
        None,
        None,
        None,
        None,
        None,
    )
}

#[test]
fn collect_city_results_concatenates() {
    let results = vec![
        Ok(vec![plain_house("a", City::Delft)]),
        Ok(vec![plain_house("b", City::Eindhoven), plain_house("c", City::Eindhoven)]),
    ];
    let all = collect_city_results(&results).unwrap();
    assert_eq!(all.len(), 3);
    assert_eq!(all[0].name, "a".to_string());
    assert_eq!(all[1].name, "b".to_string());
    assert_eq!(all[2].name, "c".to_string());
}

#[test]
fn collect_city_results_returns_the_first_error() {
    let results = vec![
        Ok(vec![plain_house("a", City::Delft)]),
        Err(Holland2StayError::ConversionError("bad page".to_string())),
        Err(Holland2StayError::ReqwestError("down".to_string())),
    ];
    let err = collect_city_results(&results).unwrap_err();
    assert_eq!(err.text(), "Conversion error: bad page".to_string());
}

#[test]
fn error_texts() {
    assert_eq!(
        Holland2StayError::ReqwestError("timeout".to_string()).text(),
        "timeout".to_string()
    );
    assert_eq!(
        Holland2StayError::SerdeJsonError("eof".to_string()).text(),
        "eof".to_string()
    );
    assert_eq!(
        Holland2StayError::FromStrError("no such city".to_string()).text(),
        "no such city".to_string()
    );
}
