//! The command handler: maps one inbound command to a registry mutation,
//! an immediate textual reply, and — right after a successful watch — the
//! baseline listings delivered at once.

use vstd::prelude::*;
use vstd::string::StringExecFns;

use crate::city::City;
use crate::listing::House;
use crate::listing::HouseView;
use crate::notify::notify_on_watch;
use crate::registry::Registry;
use crate::registry::spec_city_seq_of;
use crate::snapshot::Snapshot;
use crate::snapshot::seq_has_view;
use crate::text::join_comma;
use crate::text::spec_join_comma;

verus! {

/// The commands subscribers can send.
#[derive(Clone, Copy, PartialEq, Eq, Structural, Debug)]
pub enum Command {
    Help,
    Watch(City),
    Unwatch(City),
    Unsubscribe,
    Subscriptions,
}

/// What one handled command sends back: a reply, and for a watch the
/// baseline listings of the newly watched city, each announced in a
/// message of its own.
pub struct CommandReply {
    pub text: String,
    pub listings: Vec<House>,
}

/// The help text, listing every supported command.
pub open spec fn spec_help_text() -> Seq<char> {
    "These commands are supported:\n/help — Display this text.\n/watch — Subscribe to a city\n/unwatch — Unscubscribe from a city\n/unsubscribe — Unscubscribe from all cities\n/subscriptions — List subscriptions"@
}

pub fn help_text() -> (r: String)
    ensures
        r@ == spec_help_text(),
{
    "These commands are supported:\n/help — Display this text.\n/watch — Subscribe to a city\n/unwatch — Unscubscribe from a city\n/unsubscribe — Unscubscribe from all cities\n/subscriptions — List subscriptions".to_owned()
}

/// The watched cities of a set, as listed in a reply: the names in the
/// closed set's order, joined with commas.
pub open spec fn spec_city_list_text(s: Set<City>) -> Seq<char> {
    spec_join_comma(spec_city_seq_of(s).map_values(|c: City| c.spec_name()))
}

/// The names of the cities, in order.
fn city_names(cities: &Vec<City>) -> (r: Vec<String>)
    ensures
        r.deep_view() == cities@.map_values(|c: City| c.spec_name()),
{
    let mut r: Vec<String> = Vec::new();
    let mut j: usize = 0;
    while j < cities.len()
        invariant
            0 <= j <= cities@.len(),
            r@.len() == j,
            r.deep_view() == cities@.take(j as int).map_values(|c: City| c.spec_name()),
        decreases cities@.len() - j,
    {
        let ghost pre = r.deep_view();
        let ghost prevec = r@;
        let n = cities[j].name();
        r.push(n);
        proof {
            let f = |c: City| c.spec_name();
            let lhs = r.deep_view();
            let rhs = cities@.take(j as int + 1).map_values(f);
            assert forall|k: int| 0 <= k < lhs.len() implies lhs[k] == rhs[k] by {
                assert(cities@.take(j as int + 1)[k] == cities@[k]);
                if k < j as int {
                    assert(r@[k] == prevec[k]);
                    assert(pre[k] == prevec[k].deep_view());
                    assert(cities@.take(j as int)[k] == cities@[k]);
                    assert(pre[k] == cities@.take(j as int).map_values(f)[k]);
                } else {
                    assert(r@[k] == n);
                }
            }
            assert(lhs =~= rhs);
        }
        j = j + 1;
    }
    proof {
        assert(cities@.take(cities@.len() as int) =~= cities@);
    }
    r
}

/// Handles one inbound command for one subscriber.
///
/// The registry is mutated exactly as the command asks; the reply wording
/// depends, as the feed's users expect, on whether there was anything to
/// do; a watch additionally hands back every baseline listing of the city,
/// to be delivered at once.
pub fn handle_command(
    cmd: &Command,
    sub: i64,
    registry: &mut Registry,
    baseline: &Snapshot,
) -> (r: CommandReply)
    requires
        old(registry).wf(),
        baseline.wf(),
    ensures
        final(registry).wf(),
        forall|s: i64|
            s != sub ==> final(registry).registered(s) == old(registry).registered(s),
        forall|s: i64| s != sub ==> final(registry).watched(s) == old(registry).watched(s),
        match *cmd {
            Command::Help => {
                &&& *final(registry) == *old(registry)
                &&& r.text@ == spec_help_text()
                &&& r.listings@.len() == 0
            },
            Command::Watch(city) => {
                &&& final(registry).registered(sub)
                &&& final(registry).watched(sub) == old(registry).watched(sub).insert(city)
                &&& r.text@ == "You are now subscribed to houses in "@ + city.spec_name() + "."@
                &&& forall|hv: HouseView|
                    seq_has_view(r.listings@, hv) <==> (baseline@.contains(hv) && hv.city == city)
                &&& forall|i: int, j: int|
                    #![trigger r.listings@[i], r.listings@[j]]
                    0 <= i < j < r.listings@.len() ==> r.listings@[i]@ != r.listings@[j]@
            },
            Command::Unwatch(city) => {
                &&& final(registry).registered(sub) == old(registry).registered(sub)
                &&& final(registry).watched(sub) == old(registry).watched(sub).remove(city)
                &&& !old(registry).registered(sub) ==> *final(registry) == *old(registry)
                &&& r.text@ == if old(registry).watched(sub).contains(city) {
                    "You are now unsubscribed from houses in "@ + city.spec_name() + "."@
                } else {
                    "You were already unsubscribed from houses in "@ + city.spec_name() + "."@
                }
                &&& r.listings@.len() == 0
            },
            Command::Unsubscribe => {
                &&& !final(registry).registered(sub)
                &&& final(registry).watched(sub) == Set::<City>::empty()
                &&& r.text@ == if old(registry).registered(sub) {
                    "You are now unsubscribed from "@ + spec_city_list_text(
                        old(registry).watched(sub),
                    ) + "."@
                } else {
                    "You were already unsubscribed."@
                }
                &&& r.listings@.len() == 0
            },
            Command::Subscriptions => {
                &&& *final(registry) == *old(registry)
                &&& r.text@ == if old(registry).registered(sub) {
                    "You are subscribed to "@ + spec_city_list_text(old(registry).watched(sub))
                        + "."@
                } else {
                    "You have no subscriptions."@
                }
                &&& r.listings@.len() == 0
            },
        },
{
    match cmd {
        Command::Help => CommandReply { text: help_text(), listings: Vec::new() },
        Command::Watch(city) => {
            registry.watch(sub, *city);
            let mut text = "You are now subscribed to houses in ".to_owned();
            text.append(city.name().as_str());
            text.append(".");
            let listings = notify_on_watch(*city, baseline);
            CommandReply { text, listings }
        }
        Command::Unwatch(city) => {
            let was = registry.unwatch(sub, *city);
            let mut text = if was {
                "You are now unsubscribed from houses in ".to_owned()
            } else {
                "You were already unsubscribed from houses in ".to_owned()
            };
            text.append(city.name().as_str());
            text.append(".");
            CommandReply { text, listings: Vec::new() }
        }
        Command::Unsubscribe => {
            let text = match registry.unsubscribe_all(sub) {
                Some(cs) => {
                    let names = city_names(&cs.to_vec());
                    let mut t = "You are now unsubscribed from ".to_owned();
                    t.append(join_comma(&names).as_str());
                    t.append(".");
                    t
                }
                None => "You were already unsubscribed.".to_owned(),
            };
            CommandReply { text, listings: Vec::new() }
        }
        Command::Subscriptions => {
            let text = match registry.lookup(sub) {
                Some(cs) => {
                    let names = city_names(&cs.to_vec());
                    let mut t = "You are subscribed to ".to_owned();
                    t.append(join_comma(&names).as_str());
                    t.append(".");
                    t
                }
                None => "You have no subscriptions.".to_owned(),
            };
            CommandReply { text, listings: Vec::new() }
        }
    }
}

} // verus!
