//! The diff engine: which listings newly appeared, relative to the
//! baseline snapshot.  A pure set difference by full-attribute equality —
//! no side effects, no order dependence.

use vstd::prelude::*;

use crate::listing::House;
use crate::listing::HouseView;
use crate::snapshot::Snapshot;
use crate::snapshot::seq_has_view;

verus! {

/// A listing is new in a cycle iff it is present in that cycle's fetched
/// set and absent, by full-attribute equality, from the baseline the cycle
/// started from.
pub open spec fn spec_new_listings(prior: Set<HouseView>, current: Set<HouseView>) -> Set<
    HouseView,
> {
    current.difference(prior)
}

/// The listings of `current` that are absent from `prior`, each exactly
/// once.
pub fn new_listings(prior: &Snapshot, current: &Snapshot) -> (r: Vec<House>)
    requires
        current.wf(),
    ensures
        forall|i: int, j: int|
            #![trigger r@[i], r@[j]]
            0 <= i < j < r@.len() ==> r@[i]@ != r@[j]@,
        forall|hv: HouseView| seq_has_view(r@, hv) <==> spec_new_listings(prior@, current@).contains(hv),
{
    let items = current.items();
    let mut r: Vec<House> = Vec::new();
    let mut j: usize = 0;
    while j < items.len()
        invariant
            0 <= j <= items@.len(),
            forall|hv: HouseView| seq_has_view(items@, hv) <==> current@.contains(hv),
            forall|i2: int, j2: int|
                #![trigger items@[i2], items@[j2]]
                0 <= i2 < j2 < items@.len() ==> items@[i2]@ != items@[j2]@,
            forall|i2: int, j2: int|
                #![trigger r@[i2], r@[j2]]
                0 <= i2 < j2 < r@.len() ==> r@[i2]@ != r@[j2]@,
            forall|hv: HouseView|
                seq_has_view(r@, hv) <==> (seq_has_view(items@.take(j as int), hv)
                    && !prior@.contains(hv)),
        decreases items@.len() - j,
    {
        let ghost pre = r@;
        let h = &items[j];
        if !prior.contains(h) {
            proof {
                if seq_has_view(pre, h@) {
                    assert(seq_has_view(items@.take(j as int), h@));
                    let k = choose|k: int|
                        0 <= k < j && (#[trigger] items@.take(j as int)[k])@ == h@;
                    assert(items@[k]@ == items@[j as int]@);
                    assert(false);
                }
            }
            r.push(h.clone());
        }
        proof {
            assert(items@.take(j as int + 1) =~= items@.take(j as int).push(items@[j as int]));
            assert forall|hv: HouseView|
                seq_has_view(r@, hv) <==> (seq_has_view(items@.take(j as int + 1), hv)
                    && !prior@.contains(hv)) by {
                if seq_has_view(r@, hv) {
                    let k = choose|k: int| 0 <= k < r@.len() && (#[trigger] r@[k])@ == hv;
                    if k < pre.len() {
                        assert(pre[k]@ == hv);
                        assert(seq_has_view(pre, hv));
                        let m = choose|m: int|
                            0 <= m < j && (#[trigger] items@.take(j as int)[m])@ == hv;
                        assert(items@.take(j as int + 1)[m]@ == hv);
                    } else {
                        assert(r@[k] == *h);
                        assert(items@.take(j as int + 1)[j as int]@ == hv);
                    }
                }
                if seq_has_view(items@.take(j as int + 1), hv) && !prior@.contains(hv) {
                    let k = choose|k: int|
                        0 <= k <= j && (#[trigger] items@.take(j as int + 1)[k])@ == hv;
                    if k < j as int {
                        assert(items@.take(j as int)[k]@ == hv);
                        assert(seq_has_view(pre, hv));
                        let m = choose|m: int| 0 <= m < pre.len() && (#[trigger] pre[m])@ == hv;
                        assert(r@[m]@ == hv);
                    } else {
                        assert(r@[r@.len() - 1]@ == hv);
                    }
                }
            }
        }
        j = j + 1;
    }
    proof {
        assert(items@.take(items@.len() as int) =~= items@);
    }
    r
}

/// Diffing a set against itself yields nothing: the diff engine is
/// idempotent.
pub proof fn lemma_diff_idempotent(s: Set<HouseView>)
    ensures
        spec_new_listings(s, s) =~= Set::<HouseView>::empty(),
{
}

/// The exec corollary: a result satisfying `new_listings`' contract for
/// equal baseline and fetch holds no listing at all.
pub proof fn lemma_new_listings_self_empty(r: Seq<House>, s: Set<HouseView>)
    requires
        forall|hv: HouseView| seq_has_view(r, hv) <==> spec_new_listings(s, s).contains(hv),
    ensures
        r.len() == 0,
{
    if r.len() > 0 {
        assert(seq_has_view(r, r[0]@));
    }
}

} // verus!
