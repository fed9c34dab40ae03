//! The notifier: given newly appeared listings (or a fetch failure) and
//! the registry, plans which subscriber receives which message.  The plan
//! pairs each new listing with exactly the subscribers watching its city,
//! each pair exactly once; delivery order carries no guarantee.

use vstd::prelude::*;
use vstd::string::StringExecFns;

use crate::city::City;
use crate::listing::House;
use crate::listing::HouseView;
use crate::listing::spec_house_text;
use crate::registry::Registry;
use crate::snapshot::Snapshot;
use crate::snapshot::seq_has_view;

verus! {

/// One planned send: a message about a listing to one subscriber.
pub struct Notification {
    pub chat: i64,
    pub house: House,
}

impl DeepView for Notification {
    type V = (i64, HouseView);

    open spec fn deep_view(&self) -> (i64, HouseView) {
        (self.chat, self.house@)
    }
}

/// What a correct fan-out of newly appeared listings is: every planned
/// pair is owed — its listing is new and its subscriber watches the
/// listing's city — every owed pair is planned, and no pair occurs twice.
pub open spec fn is_new_listing_plan(
    plan: Seq<(i64, HouseView)>,
    fresh: Set<HouseView>,
    reg: Registry,
) -> bool {
    &&& forall|k: int|
        0 <= k < plan.len() ==> {
            let p = #[trigger] plan[k];
            fresh.contains(p.1) && reg.registered(p.0) && reg.watched(p.0).contains(p.1.city)
        }
    &&& forall|s: i64, hv: HouseView|
        #![trigger fresh.contains(hv), reg.watched(s)]
        fresh.contains(hv) && reg.registered(s) && reg.watched(s).contains(hv.city) ==> exists|
            k: int,
        | 0 <= k < plan.len() && #[trigger] plan[k] == (s, hv)
    &&& forall|k1: int, k2: int|
        #![trigger plan[k1], plan[k2]]
        0 <= k1 < k2 < plan.len() ==> plan[k1] != plan[k2]
}

/// The notifications one new listing owes: one per subscriber watching its
/// city, each exactly once.
fn fan_out_one(h: &House, registry: &Registry) -> (r: Vec<Notification>)
    requires
        registry.wf(),
    ensures
        forall|k: int| 0 <= k < r@.len() ==> (#[trigger] r@[k]).house@ == h@,
        forall|k: int|
            0 <= k < r@.len() ==> registry.registered((#[trigger] r@[k]).chat)
                && registry.watched(r@[k].chat).contains(h@.city),
        forall|s: i64|
            registry.registered(s) && #[trigger] registry.watched(s).contains(h@.city)
                ==> exists|k: int| 0 <= k < r@.len() && (#[trigger] r@[k]).chat == s,
        forall|k1: int, k2: int|
            #![trigger r@[k1], r@[k2]]
            0 <= k1 < k2 < r@.len() ==> r@[k1].chat != r@[k2].chat,
{
    let subs = registry.subscribers();
    let mut r: Vec<Notification> = Vec::new();
    let mut j: usize = 0;
    while j < subs.len()
        invariant
            0 <= j <= subs@.len(),
            registry.wf(),
            subs@.no_duplicates(),
            forall|s: i64| subs@.contains(s) <==> registry.registered(s),
            forall|k: int| 0 <= k < r@.len() ==> (#[trigger] r@[k]).house@ == h@,
            forall|k: int|
                0 <= k < r@.len() ==> registry.registered((#[trigger] r@[k]).chat)
                    && registry.watched(r@[k].chat).contains(h@.city),
            forall|k: int|
                0 <= k < r@.len() ==> subs@.take(j as int).contains((#[trigger] r@[k]).chat),
            forall|s: i64|
                subs@.take(j as int).contains(s) && registry.registered(s)
                    && #[trigger] registry.watched(s).contains(h@.city) ==> exists|k: int|
                    0 <= k < r@.len() && (#[trigger] r@[k]).chat == s,
            forall|k1: int, k2: int|
                #![trigger r@[k1], r@[k2]]
                0 <= k1 < k2 < r@.len() ==> r@[k1].chat != r@[k2].chat,
        decreases subs@.len() - j,
    {
        let ghost pre = r@;
        let s = subs[j];
        let cs = registry.cities_of(s);
        proof {
            assert(subs@[j as int] == s);
            assert(subs@.contains(s));
        }
        if cs.contains(h.city) {
            proof {
                assert(h@.city == h.city);
                if exists|k: int| 0 <= k < pre.len() && (#[trigger] pre[k]).chat == s {
                    let k = choose|k: int| 0 <= k < pre.len() && (#[trigger] pre[k]).chat == s;
                    assert(subs@.take(j as int).contains(s));
                    let m = choose|m: int| 0 <= m < j && subs@.take(j as int)[m] == s;
                    assert(subs@[m] == subs@[j as int]);
                    assert(false);
                }
            }
            r.push(Notification { chat: s, house: h.clone() });
        }
        proof {
            assert(subs@.take(j as int + 1) =~= subs@.take(j as int).push(subs@[j as int]));
            assert forall|s2: i64|
                subs@.take(j as int + 1).contains(s2) && registry.registered(s2)
                    && #[trigger] registry.watched(s2).contains(h@.city) implies exists|k: int|
                0 <= k < r@.len() && (#[trigger] r@[k]).chat == s2 by {
                let m = choose|m: int|
                    0 <= m <= j && (#[trigger] subs@.take(j as int + 1)[m]) == s2;
                if m < j as int {
                    assert(subs@.take(j as int).contains(s2));
                    let k = choose|k: int| 0 <= k < pre.len() && (#[trigger] pre[k]).chat == s2;
                    assert(r@[k].chat == s2);
                } else {
                    assert(s2 == s);
                    assert(r@[r@.len() - 1].chat == s);
                }
            }
            assert forall|k: int|
                0 <= k < r@.len() implies subs@.take(j as int + 1).contains(
                (#[trigger] r@[k]).chat,
            ) by {
                if k < pre.len() {
                    assert(subs@.take(j as int).contains(pre[k].chat));
                    let m = choose|m: int| 0 <= m < j && subs@.take(j as int)[m] == pre[k].chat;
                    assert(subs@.take(j as int + 1)[m] == pre[k].chat);
                } else {
                    assert(subs@.take(j as int + 1)[j as int] == r@[k].chat);
                }
            }
        }
        j = j + 1;
    }
    proof {
        assert(subs@.take(subs@.len() as int) =~= subs@);
    }
    r
}

/// Plans the fan-out of the newly appeared listings: one notification per
/// (new listing, subscriber watching its city) pair, each exactly once;
/// subscribers not watching a listing's city get nothing for it.
pub fn notify_new(fresh: &Vec<House>, registry: &Registry) -> (plan: Vec<Notification>)
    requires
        registry.wf(),
        forall|i: int, j: int|
            #![trigger fresh@[i], fresh@[j]]
            0 <= i < j < fresh@.len() ==> fresh@[i]@ != fresh@[j]@,
    ensures
        is_new_listing_plan(
            plan.deep_view(),
            Set::new(|hv: HouseView| seq_has_view(fresh@, hv)),
            *registry,
        ),
{
    let ghost fresh_set = Set::new(|hv: HouseView| seq_has_view(fresh@, hv));
    let mut plan: Vec<Notification> = Vec::new();
    let mut i: usize = 0;
    while i < fresh.len()
        invariant
            0 <= i <= fresh@.len(),
            registry.wf(),
            forall|i2: int, j2: int|
                #![trigger fresh@[i2], fresh@[j2]]
                0 <= i2 < j2 < fresh@.len() ==> fresh@[i2]@ != fresh@[j2]@,
            forall|k: int|
                0 <= k < plan@.len() ==> {
                    let p = (#[trigger] plan@[k]).deep_view();
                    seq_has_view(fresh@.take(i as int), p.1) && registry.registered(p.0)
                        && registry.watched(p.0).contains(p.1.city)
                },
            forall|s: i64, hv: HouseView|
                #![trigger seq_has_view(fresh@.take(i as int), hv), registry.watched(s)]
                seq_has_view(fresh@.take(i as int), hv) && registry.registered(s)
                    && registry.watched(s).contains(hv.city) ==> exists|k: int|
                    0 <= k < plan@.len() && (#[trigger] plan@[k]).deep_view() == (s, hv),
            forall|k1: int, k2: int|
                #![trigger plan@[k1], plan@[k2]]
                0 <= k1 < k2 < plan@.len() ==> plan@[k1].deep_view() != plan@[k2].deep_view(),
        decreases fresh@.len() - i,
    {
        let ghost pre = plan@;
        let h = &fresh[i];
        let mut chunk = fan_out_one(h, registry);
        let ghost chunk_snap = chunk@;
        plan.append(&mut chunk);
        proof {
            assert(plan@ =~= pre + chunk_snap);
            assert(fresh@.take(i as int + 1) =~= fresh@.take(i as int).push(fresh@[i as int]));
            // a listing of the processed prefix is not this chunk's listing
            assert forall|k: int|
                0 <= k < plan@.len() implies {
                let p = (#[trigger] plan@[k]).deep_view();
                seq_has_view(fresh@.take(i as int + 1), p.1) && registry.registered(p.0)
                    && registry.watched(p.0).contains(p.1.city)
            } by {
                if k < pre.len() {
                    assert(plan@[k] == pre[k]);
                    let hv = pre[k].deep_view().1;
                    let m = choose|m: int|
                        0 <= m < i && (#[trigger] fresh@.take(i as int)[m])@ == hv;
                    assert(fresh@.take(i as int + 1)[m]@ == hv);
                } else {
                    assert(plan@[k] == chunk_snap[k - pre.len()]);
                    assert(fresh@.take(i as int + 1)[i as int]@ == h@);
                }
            }
            assert forall|s: i64, hv: HouseView|
                #![trigger seq_has_view(fresh@.take(i as int + 1), hv), registry.watched(s)]
                seq_has_view(fresh@.take(i as int + 1), hv) && registry.registered(s)
                    && registry.watched(s).contains(hv.city) implies exists|k: int|
                0 <= k < plan@.len() && (#[trigger] plan@[k]).deep_view() == (s, hv) by {
                let m = choose|m: int|
                    0 <= m <= i && (#[trigger] fresh@.take(i as int + 1)[m])@ == hv;
                if m < i as int {
                    assert(fresh@.take(i as int)[m]@ == hv);
                    assert(seq_has_view(fresh@.take(i as int), hv));
                    let k = choose|k: int|
                        0 <= k < pre.len() && (#[trigger] pre[k]).deep_view() == (s, hv);
                    assert(plan@[k].deep_view() == (s, hv));
                } else {
                    assert(hv == h@);
                    let k = choose|k: int|
                        0 <= k < chunk_snap.len() && (#[trigger] chunk_snap[k]).chat == s;
                    assert(plan@[pre.len() + k].deep_view() == (s, hv));
                }
            }
            assert forall|k1: int, k2: int|
                #![trigger plan@[k1], plan@[k2]]
                0 <= k1 < k2 < plan@.len() implies plan@[k1].deep_view()
                != plan@[k2].deep_view() by {
                if k1 < pre.len() && k2 >= pre.len() {
                    // the old pair's listing is in the processed prefix, the
                    // new pair's is this cycle's — distinct by the no-dup
                    // input
                    let hv1 = pre[k1].deep_view().1;
                    let m = choose|m: int|
                        0 <= m < i && (#[trigger] fresh@.take(i as int)[m])@ == hv1;
                    assert(fresh@[m]@ == hv1);
                    assert(chunk_snap[k2 - pre.len()].house@ == h@);
                    assert(fresh@[m]@ != fresh@[i as int]@);
                } else if k1 >= pre.len() {
                    assert(chunk_snap[k1 - pre.len()].chat != chunk_snap[k2 - pre.len()].chat);
                }
            }
        }
        i = i + 1;
    }
    proof {
        assert(fresh@.take(fresh@.len() as int) =~= fresh@);
        assert forall|s: i64, hv: HouseView|
            #![trigger fresh_set.contains(hv), registry.watched(s)]
            fresh_set.contains(hv) && registry.registered(s) && registry.watched(s).contains(
            hv.city) implies exists|k: int|
            0 <= k < plan.deep_view().len() && #[trigger] plan.deep_view()[k] == (s, hv) by {
            let k = choose|k: int|
                0 <= k < plan@.len() && (#[trigger] plan@[k]).deep_view() == (s, hv);
            assert(plan.deep_view()[k] == (s, hv));
        }
        assert forall|k: int| 0 <= k < plan.deep_view().len() implies {
            let p = #[trigger] plan.deep_view()[k];
            fresh_set.contains(p.1) && registry.registered(p.0) && registry.watched(p.0).contains(
            p.1.city)
        } by {
            assert(plan.deep_view()[k] == plan@[k].deep_view());
        }
        assert forall|k1: int, k2: int|
            #![trigger plan.deep_view()[k1], plan.deep_view()[k2]]
            0 <= k1 < k2 < plan.deep_view().len() implies plan.deep_view()[k1]
            != plan.deep_view()[k2] by {
            assert(plan.deep_view()[k1] == plan@[k1].deep_view());
            assert(plan.deep_view()[k2] == plan@[k2].deep_view());
        }
    }
    plan
}

/// The recipients of a fetch-failure notice: every currently registered
/// subscriber, exactly once, whatever they watch.
pub fn notify_fetch_failure(registry: &Registry) -> (r: Vec<i64>)
    requires
        registry.wf(),
    ensures
        r@.no_duplicates(),
        forall|s: i64| r@.contains(s) <==> registry.registered(s),
{
    registry.subscribers()
}

/// The baseline listings a fresh watch of a city delivers at once: every
/// snapshot listing in that city, each exactly once, independent of the
/// diff history.
pub fn notify_on_watch(city: City, snapshot: &Snapshot) -> (r: Vec<House>)
    requires
        snapshot.wf(),
    ensures
        forall|i: int, j: int|
            #![trigger r@[i], r@[j]]
            0 <= i < j < r@.len() ==> r@[i]@ != r@[j]@,
        forall|hv: HouseView| seq_has_view(r@, hv) <==> (snapshot@.contains(hv) && hv.city == city),
{
    let items = snapshot.items();
    let mut r: Vec<House> = Vec::new();
    let mut j: usize = 0;
    while j < items.len()
        invariant
            0 <= j <= items@.len(),
            forall|hv: HouseView| seq_has_view(items@, hv) <==> snapshot@.contains(hv),
            forall|i2: int, j2: int|
                #![trigger items@[i2], items@[j2]]
                0 <= i2 < j2 < items@.len() ==> items@[i2]@ != items@[j2]@,
            forall|i2: int, j2: int|
                #![trigger r@[i2], r@[j2]]
                0 <= i2 < j2 < r@.len() ==> r@[i2]@ != r@[j2]@,
            forall|hv: HouseView|
                seq_has_view(r@, hv) <==> (seq_has_view(items@.take(j as int), hv) && hv.city
                    == city),
        decreases items@.len() - j,
    {
        let ghost pre = r@;
        let h = &items[j];
        if h.city == city {
            proof {
                if seq_has_view(pre, h@) {
                    let k = choose|k: int|
                        0 <= k < j && (#[trigger] items@.take(j as int)[k])@ == h@;
                    assert(items@[k]@ == items@[j as int]@);
                    assert(false);
                }
            }
            r.push(h.clone());
        }
        proof {
            assert(items@.take(j as int + 1) =~= items@.take(j as int).push(items@[j as int]));
            assert forall|hv: HouseView|
                seq_has_view(r@, hv) <==> (seq_has_view(items@.take(j as int + 1), hv) && hv.city
                    == city) by {
                if seq_has_view(r@, hv) {
                    let k = choose|k: int| 0 <= k < r@.len() && (#[trigger] r@[k])@ == hv;
                    if k < pre.len() {
                        assert(seq_has_view(pre, hv));
                        let m = choose|m: int|
                            0 <= m < j && (#[trigger] items@.take(j as int)[m])@ == hv;
                        assert(items@.take(j as int + 1)[m]@ == hv);
                    } else {
                        assert(r@[k] == *h);
                        assert(items@.take(j as int + 1)[j as int]@ == hv);
                    }
                }
                if seq_has_view(items@.take(j as int + 1), hv) && hv.city == city {
                    let k = choose|k: int|
                        0 <= k <= j && (#[trigger] items@.take(j as int + 1)[k])@ == hv;
                    if k < j as int {
                        assert(items@.take(j as int)[k]@ == hv);
                        assert(seq_has_view(pre, hv));
                        let m = choose|m: int| 0 <= m < pre.len() && (#[trigger] pre[m])@ == hv;
                        assert(r@[m]@ == hv);
                    } else {
                        assert(r@[r@.len() - 1]@ == hv);
                    }
                }
            }
        }
        j = j + 1;
    }
    proof {
        assert(items@.take(items@.len() as int) =~= items@);
    }
    r
}

/// The message text announcing a newly appeared listing.
pub fn new_house_message(h: &House) -> (r: String)
    ensures
        r@ == "I found a new house! "@ + spec_house_text(h@),
{
    let mut s = "I found a new house! ".to_owned();
    s.append(h.text().as_str());
    s
}

/// The message text shown for each baseline listing right after a watch.
pub fn on_watch_message(h: &House) -> (r: String)
    ensures
        r@ == "There is this house: "@ + spec_house_text(h@),
{
    let mut s = "There is this house: ".to_owned();
    s.append(h.text().as_str());
    s
}

/// The notice every subscriber gets when a fetch fails.
pub fn fetch_failure_text() -> (r: String)
    ensures
        r@ == "An error occurred while fetching houses from holland2stay."@,
{
    "An error occurred while fetching houses from holland2stay.".to_owned()
}

/// A subscriber not watching a city is never paired with a listing in that
/// city: once an unwatch has removed the city, later cycles' plans never
/// notify that subscriber of listings there.
pub proof fn lemma_unwatched_not_notified(
    plan: Seq<(i64, HouseView)>,
    fresh: Set<HouseView>,
    reg: Registry,
    sub: i64,
    city: City,
)
    requires
        is_new_listing_plan(plan, fresh, reg),
        !reg.watched(sub).contains(city),
    ensures
        forall|k: int|
            0 <= k < plan.len() ==> !((#[trigger] plan[k]).0 == sub && plan[k].1.city == city),
{
}

} // verus!
