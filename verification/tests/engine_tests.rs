use housewatch::city::City;
use housewatch::diff::new_listings;
use housewatch::listing::House;
use housewatch::notify::{
    fetch_failure_text, new_house_message, notify_fetch_failure, notify_new, notify_on_watch,
    on_watch_message,
};
use housewatch::poller::{fetch_cities, run_cycle};
use housewatch::registry::Registry;
use housewatch::snapshot::Snapshot;

fn listing(name: &str, city: City) -> House {
    House::new(
        name.to_string(),
        None,
        city,
        None,
        None,
        None,
        None,
        None,
        None,
    )
}

fn names_for(chat: i64, plan: &[housewatch::notify::Notification]) -> Vec<String> {
    let mut v: Vec<String> = plan
        .iter()
        .filter(|n| n.chat == chat)
        .map(|n| n.house.name.clone())
        .collect();
    v.sort();
    v
}

#[test]
fn diff_of_a_set_with_itself_is_empty() {
    let fetched = vec![
        listing("A", City::Delft),
        listing("B", City::Eindhoven),
        listing("A", City::Delft),
    ];
    let snap = Snapshot::from_vec(&fetched);
    let diff = new_listings(&snap, &snap);
    assert!(diff.is_empty());
}

#[test]
fn diff_reports_exactly_the_new_listings() {
    let before = Snapshot::from_vec(&vec![listing("A", City::Delft)]);
    let after = Snapshot::from_vec(&vec![
        listing("A", City::Delft),
        listing("B", City::Delft),
        listing("C", City::Eindhoven),
    ]);
    let diff = new_listings(&before, &after);
    let mut names: Vec<String> = diff.iter().map(|h| h.name.clone()).collect();
    names.sort();
    assert_eq!(names, vec!["B".to_string(), "C".to_string()]);
}

#[test]
fn changed_attributes_make_a_distinct_listing() {
    let old = House::new(
        "A".to_string(),
        None,
        City::Delft,
        None,
        None,
        None,
        Some("1200".to_string()),
        None,
        None,
    );
    let new = House::new(
        "A".to_string(),
        None,
        City::Delft,
        None,
        None,
        None,
        Some("1250".to_string()),
        None,
        None,
    );
    let before = Snapshot::from_vec(&vec![old]);
    let after = Snapshot::from_vec(&vec![new.clone()]);
    let diff = new_listings(&before, &after);
    assert_eq!(diff.len(), 1);
    assert!(diff[0] == new);
}

#[test]
fn fan_out_reaches_exactly_the_watchers() {
    // Baseline = {A(Delft)}; X watches Delft, Y watches Eindhoven; the next
    // fetch brings {A, B(Delft), C(Eindhoven)}: X gets B only, Y gets C
    // only, nobody gets A again.
    let x: i64 = 1;
    let y: i64 = 2;
    let mut registry = Registry::new();
    registry.watch(x, City::Delft);
    registry.watch(y, City::Eindhoven);

    let mut baseline = Snapshot::from_vec(&vec![listing("A", City::Delft)]);
    let fetched = vec![
        listing("A", City::Delft),
        listing("B", City::Delft),
        listing("C", City::Eindhoven),
    ];
    let out = run_cycle::<()>(&registry, &mut baseline, Ok(fetched));
    assert!(out.failure_recipients.is_empty());
    assert_eq!(out.new_plan.len(), 2);
    assert_eq!(names_for(x, &out.new_plan), vec!["B".to_string()]);
    assert_eq!(names_for(y, &out.new_plan), vec!["C".to_string()]);
}

#[test]
fn failure_notifies_everyone_and_keeps_the_baseline() {
    // Fetch fails: every subscriber gets exactly one notice, the baseline
    // stays {A}, and the next successful fetch of {A} yields no diff.
    let x: i64 = 1;
    let y: i64 = 2;
    let mut registry = Registry::new();
    registry.watch(x, City::Delft);
    registry.watch(y, City::Eindhoven);

    let mut baseline = Snapshot::from_vec(&vec![listing("A", City::Delft)]);
    let out = run_cycle(&registry, &mut baseline, Err(()));
    assert!(out.new_plan.is_empty());
    let mut recipients = out.failure_recipients.clone();
    recipients.sort();
    assert_eq!(recipients, vec![x, y]);

    let out2 = run_cycle::<()>(&registry, &mut baseline, Ok(vec![listing("A", City::Delft)]));
    assert!(out2.new_plan.is_empty());
    assert!(out2.failure_recipients.is_empty());
}

#[test]
fn unwatched_city_is_never_notified_again() {
    let x: i64 = 5;
    let mut registry = Registry::new();
    registry.watch(x, City::Delft);
    assert!(registry.unwatch(x, City::Delft));

    let mut baseline = Snapshot::new();
    let out = run_cycle::<()>(&registry, &mut baseline, Ok(vec![listing("B", City::Delft)]));
    assert!(out.new_plan.is_empty());
}

#[test]
fn watch_delivers_the_baseline_at_once() {
    let baseline = Snapshot::from_vec(&vec![
        listing("A", City::Delft),
        listing("C", City::Eindhoven),
    ]);
    let delivered = notify_on_watch(City::Delft, &baseline);
    assert_eq!(delivered.len(), 1);
    assert_eq!(delivered[0].name, "A".to_string());
}

#[test]
fn notify_new_skips_subscribers_without_the_city() {
    let mut registry = Registry::new();
    registry.watch(1, City::Delft);
    registry.watch(2, City::Rotterdam);
    let fresh = vec![listing("B", City::Delft)];
    let plan = notify_new(&fresh, &registry);
    assert_eq!(plan.len(), 1);
    assert_eq!(plan[0].chat, 1);
    assert!(plan[0].house == fresh[0]);
}

#[test]
fn failure_notice_goes_to_cityless_subscribers_too() {
    // A subscriber whose watchlist an unwatch emptied stays registered and
    // still gets the failure notice; an unwatch alone registers nobody.
    let mut registry = Registry::new();
    registry.watch(1, City::Delft);
    registry.watch(2, City::Delft);
    assert!(registry.unwatch(2, City::Delft));
    assert!(!registry.unwatch(3, City::Delft));
    let mut recipients = notify_fetch_failure(&registry);
    recipients.sort();
    assert_eq!(recipients, vec![1, 2]);
}

#[test]
fn fetch_covers_the_union_of_watchlists() {
    let mut registry = Registry::new();
    assert!(fetch_cities(&registry).is_none());
    registry.watch(1, City::Delft);
    registry.watch(1, City::Eindhoven);
    registry.watch(2, City::Eindhoven);
    let cities = fetch_cities(&registry).unwrap();
    assert!(!cities.is_empty());
    let mut names: Vec<String> = cities.to_vec().iter().map(|c| c.name()).collect();
    names.sort();
    assert_eq!(
        names,
        vec!["Delft".to_string(), "Eindhoven".to_string()]
    );
}

#[test]
fn snapshot_hands_out_a_copy() {
    let snap = Snapshot::from_vec(&vec![
        listing("A", City::Delft),
        listing("A", City::Delft),
        listing("B", City::Eindhoven),
    ]);
    let copy = snap.current();
    assert_eq!(copy.len(), 2);
    assert!(snap.contains(&copy[0]));
    assert!(snap.contains(&copy[1]));
    assert!(!snap.contains(&listing("C", City::Delft)));
}

#[test]
fn message_texts() {
    let h = listing("A", City::Delft);
    assert_eq!(
        new_house_message(&h),
        "I found a new house! Delft: A size: unknown m2, floor: unknown, minimum_stay: unknown, price: unknown euros, start_date: unknown, contract_duration: unknown, link: unknown".to_string()
    );
    assert_eq!(
        on_watch_message(&h),
        "There is this house: Delft: A size: unknown m2, floor: unknown, minimum_stay: unknown, price: unknown euros, start_date: unknown, contract_duration: unknown, link: unknown".to_string()
    );
    assert_eq!(
        fetch_failure_text(),
        "An error occurred while fetching houses from holland2stay.".to_string()
    );
}

#[test]
fn house_text_shows_every_field() {
    let h = House::new(
        "Some Street 12".to_string(),
        Some("https://holland2stay.com/residences/some-street-12".to_string()),
        City::Rotterdam,
        Some("50".to_string()),
        Some("1st floor".to_string()),
        Some("6 months".to_string()),
        Some("1200.5".to_string()),
        Some("5 July 2024".to_string()),
        Some("Indefinite".to_string()),
    );
    assert_eq!(
        h.text(),
        "Rotterdam: Some Street 12 size: 50 m2, floor: 1st floor, minimum_stay: 6 months, price: 1200.5 euros, start_date: 5 July 2024, contract_duration: Indefinite, link: https://holland2stay.com/residences/some-street-12".to_string()
    );
}
