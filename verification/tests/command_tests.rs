use housewatch::api::Holland2StayError;
use housewatch::auth::{token_or_conversion_error, Auth};
use housewatch::city::City;
use housewatch::command::{handle_command, help_text, Command};
use housewatch::listing::House;
use housewatch::ngrok::{bot_tunnel_url, NgrokError, Tunnel};
use housewatch::registry::Registry;
use housewatch::snapshot::Snapshot;
use housewatch::text::{i64_to_string, is_some_or_unknown_str, join_comma, month_name, u64_to_string};

fn listing(name: &str, city: City) -> House {
    House::new(
        name.to_string(),
        None,
        city,
        None,
        None,
        None,
        None,
        None,
        None,
    )
}

#[test]
fn city_ids() {
    assert_eq!(City::Delft.id().value(), 26);
    assert_eq!(City::Eindhoven.id().value(), 29);
    assert_eq!(City::DenHaag.id().value(), 90);
    assert_eq!(City::Zoetermeer.id().value(), 6088);
    assert_eq!(City::Rijswijk.id().value(), 6224);
    assert_eq!(City::Rotterdam.id().value(), 25);
}

#[test]
fn city_names_round_trip() {
    for c in [
        City::Delft,
        City::Eindhoven,
        City::DenHaag,
        City::Zoetermeer,
        City::Rijswijk,
        City::Rotterdam,
    ] {
        assert_eq!(City::parse(&c.name()), Some(c));
    }
    assert_eq!(City::parse("Amsterdam"), None);
    assert_eq!(City::parse("delft"), None);
}

#[test]
fn watch_replies_and_delivers() {
    let mut registry = Registry::new();
    let baseline = Snapshot::from_vec(&vec![
        listing("A", City::Delft),
        listing("C", City::Eindhoven),
    ]);
    let reply = handle_command(&Command::Watch(City::Delft), 3, &mut registry, &baseline);
    assert_eq!(
        reply.text,
        "You are now subscribed to houses in Delft.".to_string()
    );
    assert_eq!(reply.listings.len(), 1);
    assert_eq!(reply.listings[0].name, "A".to_string());
}

#[test]
fn unwatch_of_an_unknown_subscriber_changes_nothing() {
    // Entries appear on a first watch only: a spurious unwatch leaves the
    // registry exactly as it was.
    let mut registry = Registry::new();
    let baseline = Snapshot::new();
    let reply = handle_command(&Command::Unwatch(City::Delft), 9, &mut registry, &baseline);
    assert_eq!(
        reply.text,
        "You were already unsubscribed from houses in Delft.".to_string()
    );
    assert!(registry.is_empty());
    assert!(registry.lookup(9).is_none());
}

#[test]
fn unwatch_reply_depends_on_membership() {
    let mut registry = Registry::new();
    let baseline = Snapshot::new();
    registry.watch(3, City::Delft);
    let r1 = handle_command(&Command::Unwatch(City::Delft), 3, &mut registry, &baseline);
    assert_eq!(
        r1.text,
        "You are now unsubscribed from houses in Delft.".to_string()
    );
    let r2 = handle_command(&Command::Unwatch(City::Delft), 3, &mut registry, &baseline);
    assert_eq!(
        r2.text,
        "You were already unsubscribed from houses in Delft.".to_string()
    );
}

#[test]
fn unsubscribe_lists_what_was_removed() {
    let mut registry = Registry::new();
    let baseline = Snapshot::new();
    registry.watch(3, City::Eindhoven);
    registry.watch(3, City::Delft);
    let r1 = handle_command(&Command::Unsubscribe, 3, &mut registry, &baseline);
    assert_eq!(
        r1.text,
        "You are now unsubscribed from Delft, Eindhoven.".to_string()
    );
    let r2 = handle_command(&Command::Unsubscribe, 3, &mut registry, &baseline);
    assert_eq!(r2.text, "You were already unsubscribed.".to_string());
}

#[test]
fn subscriptions_lists_the_watchlist() {
    let mut registry = Registry::new();
    let baseline = Snapshot::new();
    let r0 = handle_command(&Command::Subscriptions, 3, &mut registry, &baseline);
    assert_eq!(r0.text, "You have no subscriptions.".to_string());
    registry.watch(3, City::Rotterdam);
    registry.watch(3, City::Rijswijk);
    let r1 = handle_command(&Command::Subscriptions, 3, &mut registry, &baseline);
    assert_eq!(
        r1.text,
        "You are subscribed to Rijswijk, Rotterdam.".to_string()
    );
}

#[test]
fn a_subscriber_left_without_cities_is_still_registered() {
    // The entry a watch created survives an unwatch that empties it, so a
    // watchlist can be registered and empty; the reply then lists nothing.
    let mut registry = Registry::new();
    let baseline = Snapshot::new();
    registry.watch(3, City::Delft);
    registry.unwatch(3, City::Delft);
    let reply = handle_command(&Command::Subscriptions, 3, &mut registry, &baseline);
    assert_eq!(reply.text, "You are subscribed to .".to_string());
}

#[test]
fn watch_is_idempotent() {
    let mut registry = Registry::new();
    let baseline = Snapshot::new();
    registry.watch(3, City::Delft);
    registry.watch(3, City::Delft);
    let reply = handle_command(&Command::Subscriptions, 3, &mut registry, &baseline);
    assert_eq!(reply.text, "You are subscribed to Delft.".to_string());
}

#[test]
fn help_names_every_command() {
    let reply = handle_command(&Command::Help, 3, &mut Registry::new(), &Snapshot::new());
    assert_eq!(reply.text, help_text());
    for needle in ["/help", "/watch", "/unwatch", "/unsubscribe", "/subscriptions"] {
        assert!(reply.text.contains(needle));
    }
}

#[test]
fn numbers_render_in_decimal() {
    assert_eq!(u64_to_string(0), "0".to_string());
    assert_eq!(u64_to_string(7), "7".to_string());
    assert_eq!(u64_to_string(120), "120".to_string());
    assert_eq!(u64_to_string(6088), "6088".to_string());
    assert_eq!(i64_to_string(-45), "-45".to_string());
    assert_eq!(i64_to_string(2024), "2024".to_string());
    assert_eq!(i64_to_string(i64::MIN), "-9223372036854775808".to_string());
}

#[test]
fn text_helpers() {
    assert_eq!(month_name(1), "January");
    assert_eq!(month_name(7), "July");
    assert_eq!(month_name(12), "December");
    assert_eq!(is_some_or_unknown_str(&Some("x".to_string())), "x".to_string());
    assert_eq!(is_some_or_unknown_str(&None), "unknown".to_string());
    assert_eq!(join_comma(&vec![]), "".to_string());
    assert_eq!(join_comma(&vec!["a".to_string()]), "a".to_string());
    assert_eq!(
        join_comma(&vec!["a".to_string(), "b".to_string(), "c".to_string()]),
        "a, b, c".to_string()
    );
}

#[test]
fn auth_keeps_its_credentials() {
    let auth = Auth::new("someone@example.com".to_string(), "a-password".to_string());
    assert_eq!(auth.username().as_str(), "someone@example.com");
    assert_eq!(auth.password().as_str(), "a-password");
}

#[test]
fn token_extraction() {
    assert_eq!(
        token_or_conversion_error(Some("tok".to_string()), "Could not parse csfr token").unwrap(),
        "tok".to_string()
    );
    let err = token_or_conversion_error(None, "Could not parse csfr token").unwrap_err();
    match err {
        Holland2StayError::ConversionError(m) => {
            assert_eq!(m, "Could not parse csfr token".to_string())
        }
        _ => panic!("wrong error variant"),
    }
}

#[test]
fn tunnel_lookup_picks_the_bot_tunnel() {
    let tunnels = vec![
        Tunnel {
            public_url: "https://other.example".to_string(),
            name: "something-else".to_string(),
        },
        Tunnel {
            public_url: "https://bot.example".to_string(),
            name: "holland2stay-bot".to_string(),
        },
    ];
    assert_eq!(bot_tunnel_url(tunnels).unwrap(), "https://bot.example".to_string());
    let none = vec![Tunnel {
        public_url: "https://other.example".to_string(),
        name: "something-else".to_string(),
    }];
    assert!(matches!(bot_tunnel_url(none), Err(NgrokError::NgrokTunelNotFound)));
}
