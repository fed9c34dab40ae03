//! The baseline snapshot: the set of listings as of the last successful
//! fetch cycle.  It is replaced as a whole, never partially, and a failed
//! cycle leaves it untouched.

use vstd::prelude::*;

use crate::listing::House;
use crate::listing::HouseView;

verus! {

/// Whether some listing in the sequence has the given value.
pub open spec fn seq_has_view(s: Seq<House>, hv: HouseView) -> bool {
    exists|i: int| 0 <= i < s.len() && (#[trigger] s[i])@ == hv
}

/// The set of listings seen by the last successful fetch.  Its value is a
/// set: no listing occurs twice.
pub struct Snapshot {
    houses: Vec<House>,
}

impl View for Snapshot {
    type V = Set<HouseView>;

    closed spec fn view(&self) -> Set<HouseView> {
        Set::new(|hv: HouseView| seq_has_view(self.houses@, hv))
    }
}

impl Snapshot {
    /// Well-formed: no two stored listings have the same value.
    pub closed spec fn wf(self) -> bool {
        forall|i: int, j: int|
            #![trigger self.houses@[i], self.houses@[j]]
            0 <= i < j < self.houses@.len() ==> self.houses@[i]@ != self.houses@[j]@
    }

    /// The empty snapshot the process starts with.
    pub fn new() -> (r: Snapshot)
        ensures
            r.wf(),
            r@ == Set::<HouseView>::empty(),
    {
        let r = Snapshot { houses: Vec::new() };
        proof {
            assert(r@ =~= Set::<HouseView>::empty());
        }
        r
    }

    /// Whether the snapshot holds a listing equal to the given one.
    pub fn contains(&self, h: &House) -> (r: bool)
        ensures
            r == self@.contains(h@),
    {
        let mut j: usize = 0;
        while j < self.houses.len()
            invariant
                0 <= j <= self.houses@.len(),
                forall|k: int| 0 <= k < j ==> (#[trigger] self.houses@[k])@ != h@,
            decreases self.houses@.len() - j,
        {
            if &self.houses[j] == h {
                return true;
            }
            j = j + 1;
        }
        false
    }

    /// Read access to the stored listings: every snapshot member exactly
    /// once.
    pub fn items(&self) -> (r: &Vec<House>)
        ensures
            forall|hv: HouseView| seq_has_view(r@, hv) <==> self@.contains(hv),
            self.wf() ==> forall|i: int, j: int|
                #![trigger r@[i], r@[j]]
                0 <= i < j < r@.len() ==> r@[i]@ != r@[j]@,
    {
        &self.houses
    }

    /// A copy of the snapshot's listings, as the readers outside the poll
    /// cycle see them.
    pub fn current(&self) -> (r: Vec<House>)
        ensures
            forall|hv: HouseView| seq_has_view(r@, hv) <==> self@.contains(hv),
            self.wf() ==> forall|i: int, j: int|
                #![trigger r@[i], r@[j]]
                0 <= i < j < r@.len() ==> r@[i]@ != r@[j]@,
    {
        let mut r: Vec<House> = Vec::new();
        let mut j: usize = 0;
        while j < self.houses.len()
            invariant
                0 <= j <= self.houses@.len(),
                r@.len() == j,
                forall|k: int| 0 <= k < j ==> (#[trigger] r@[k]) == self.houses@[k],
            decreases self.houses@.len() - j,
        {
            r.push(self.houses[j].clone());
            j = j + 1;
        }
        proof {
            assert(r@ =~= self.houses@);
        }
        r
    }

    /// Collects fetched listings into a snapshot, dropping duplicates: the
    /// result holds exactly the values occurring in the input.
    pub fn from_vec(v: &Vec<House>) -> (r: Snapshot)
        ensures
            r.wf(),
            forall|hv: HouseView| r@.contains(hv) <==> seq_has_view(v@, hv),
    {
        let mut acc = Snapshot::new();
        let mut j: usize = 0;
        while j < v.len()
            invariant
                0 <= j <= v@.len(),
                acc.wf(),
                forall|hv: HouseView| acc@.contains(hv) <==> seq_has_view(v@.take(j as int), hv),
            decreases v@.len() - j,
        {
            let ghost pre = acc@;
            let h = &v[j];
            if !acc.contains(h) {
                acc.push_new(h.clone());
            }
            proof {
                assert forall|hv: HouseView|
                    acc@.contains(hv) <==> seq_has_view(v@.take(j as int + 1), hv) by {
                    assert(v@.take(j as int + 1) =~= v@.take(j as int).push(v@[j as int]));
                    if acc@.contains(hv) {
                        if pre.contains(hv) {
                            let k = choose|k: int|
                                0 <= k < v@.take(j as int).len() && (#[trigger] v@.take(
                                    j as int,
                                )[k])@ == hv;
                            assert(v@.take(j as int + 1)[k]@ == hv);
                        } else {
                            assert(v@.take(j as int + 1)[j as int]@ == hv);
                        }
                    }
                    if seq_has_view(v@.take(j as int + 1), hv) {
                        let k = choose|k: int|
                            0 <= k < v@.take(j as int + 1).len() && (#[trigger] v@.take(
                                j as int + 1,
                            )[k])@ == hv;
                        if k < j as int {
                            assert(v@.take(j as int)[k]@ == hv);
                        }
                    }
                }
            }
            j = j + 1;
        }
        proof {
            assert(v@.take(v@.len() as int) =~= v@);
        }
        acc
    }

    /// Adds a listing known to be absent.
    fn push_new(&mut self, h: House)
        requires
            old(self).wf(),
            !old(self)@.contains(h@),
        ensures
            final(self).wf(),
            final(self)@ == old(self)@.insert(h@),
    {
        let ghost s0 = self.houses@;
        proof {
            assert forall|k: int| 0 <= k < s0.len() implies (#[trigger] s0[k])@ != h@ by {
                if s0[k]@ == h@ {
                    assert(seq_has_view(s0, h@));
                }
            }
        }
        self.houses.push(h);
        proof {
            assert forall|i: int, j: int|
                #![trigger self.houses@[i], self.houses@[j]]
                0 <= i < j < self.houses@.len() implies self.houses@[i]@ != self.houses@[j]@ by {
                if j < s0.len() {
                    assert(self.houses@[i] == s0[i]);
                    assert(self.houses@[j] == s0[j]);
                } else {
                    assert(self.houses@[i] == s0[i]);
                    assert(self.houses@[j] == h);
                }
            }
            assert forall|hv: HouseView|
                self@.contains(hv) <==> old(self)@.insert(h@).contains(hv) by {
                if seq_has_view(self.houses@, hv) {
                    let k = choose|k: int|
                        0 <= k < self.houses@.len() && (#[trigger] self.houses@[k])@ == hv;
                    if k < s0.len() {
                        assert(s0[k]@ == hv);
                    }
                }
                if hv == h@ {
                    assert(self.houses@[s0.len() as int]@ == hv);
                }
                if old(self)@.contains(hv) {
                    let k = choose|k: int| 0 <= k < s0.len() && (#[trigger] s0[k])@ == hv;
                    assert(self.houses@[k]@ == hv);
                }
            }
            assert(self@ =~= old(self)@.insert(h@));
        }
    }

    /// The atomic swap: the snapshot becomes exactly the given one.  Called
    /// only after a successful fetch and diff.
    pub fn replace(&mut self, new_value: Snapshot)
        ensures
            *final(self) == new_value,
    {
        *self = new_value;
    }
}

} // verus!
