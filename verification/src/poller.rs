//! One poll cycle's decisions: which cities to fetch, and — given what the
//! fetch returned — how the baseline snapshot changes and who is told
//! what.  The surrounding loop only performs the fetch, the sends and the
//! timer waits; every decision is made here.

use vstd::prelude::*;

use crate::city::City;
use crate::diff::new_listings;
use crate::diff::spec_new_listings;
use crate::listing::House;
use crate::listing::HouseView;
use crate::notify::Notification;
use crate::notify::is_new_listing_plan;
use crate::notify::notify_fetch_failure;
use crate::notify::notify_new;
use crate::registry::CitySet;
use crate::registry::Registry;
use crate::snapshot::Snapshot;
use crate::snapshot::seq_has_view;

verus! {

/// Everything one cycle asks the transport to send.
pub struct CycleOutcome {
    /// One notification per (new listing, watching subscriber) pair.
    pub new_plan: Vec<Notification>,
    /// The subscribers owed a fetch-failure notice.
    pub failure_recipients: Vec<i64>,
}

/// What the next fetch must cover: nothing at all while nobody is
/// registered (the poller skips the fetch entirely), otherwise the union
/// of every subscriber's watchlist.
pub fn fetch_cities(registry: &Registry) -> (r: Option<CitySet>)
    requires
        registry.wf(),
    ensures
        match r {
            Some(cs) => !registry.spec_is_empty() && forall|c: City|
                cs@.contains(c) <==> exists|s: i64|
                    #[trigger] registry.registered(s) && registry.watched(s).contains(c),
            None => registry.spec_is_empty(),
        },
{
    if registry.is_empty() {
        None
    } else {
        Some(registry.all_watched_cities())
    }
}

/// Applies one fetch's result.
///
/// On success the baseline becomes exactly the fetched set, and the plan
/// fans the newly appeared listings (relative to the baseline the cycle
/// started from) out to exactly the subscribers watching each listing's
/// city.  On failure the baseline is left untouched, and every registered
/// subscriber is owed exactly one failure notice.
pub fn run_cycle<E>(
    registry: &Registry,
    baseline: &mut Snapshot,
    fetched: Result<Vec<House>, E>,
) -> (out: CycleOutcome)
    requires
        registry.wf(),
        old(baseline).wf(),
    ensures
        final(baseline).wf(),
        match fetched {
            Ok(houses) => {
                &&& forall|hv: HouseView|
                    final(baseline)@.contains(hv) <==> seq_has_view(houses@, hv)
                &&& is_new_listing_plan(
                    out.new_plan.deep_view(),
                    spec_new_listings(old(baseline)@, final(baseline)@),
                    *registry,
                )
                &&& out.failure_recipients@.len() == 0
            },
            Err(_) => {
                &&& *final(baseline) == *old(baseline)
                &&& out.failure_recipients@.no_duplicates()
                &&& forall|s: i64|
                    out.failure_recipients@.contains(s) <==> registry.registered(s)
                &&& out.new_plan@.len() == 0
            },
        },
{
    match fetched {
        Ok(houses) => {
            let current = Snapshot::from_vec(&houses);
            let fresh = new_listings(baseline, &current);
            let plan = notify_new(&fresh, registry);
            proof {
                assert(Set::new(|hv: HouseView| seq_has_view(fresh@, hv)) =~= spec_new_listings(
                    baseline@,
                    current@,
                ));
            }
            baseline.replace(current);
            CycleOutcome { new_plan: plan, failure_recipients: Vec::new() }
        }
        Err(_) => {
            let recipients = notify_fetch_failure(registry);
            CycleOutcome { new_plan: Vec::new(), failure_recipients: recipients }
        }
    }
}

} // verus!
