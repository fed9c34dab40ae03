//! The subscription registry: which subscriber watches which cities.
//!
//! A subscriber is an opaque numeric handle.  An entry is created
//! implicitly by the first watch naming the subscriber, and the subscriber
//! stays registered — and keeps receiving fetch-failure notices, even with
//! an emptied watchlist — until the whole entry is removed.  Querying or
//! unwatching an absent subscriber yields an empty result and changes
//! nothing, never an error.

use vstd::prelude::*;

use crate::city::City;

verus! {

/// A set of cities, one membership flag per city of the closed set.
#[derive(Clone, Copy, PartialEq, Eq, Structural, Debug)]
pub struct CitySet {
    pub delft: bool,
    pub eindhoven: bool,
    pub den_haag: bool,
    pub zoetermeer: bool,
    pub rijswijk: bool,
    pub rotterdam: bool,
}

impl CitySet {
    pub open spec fn spec_contains(self, c: City) -> bool {
        match c {
            City::Delft => self.delft,
            City::Eindhoven => self.eindhoven,
            City::DenHaag => self.den_haag,
            City::Zoetermeer => self.zoetermeer,
            City::Rijswijk => self.rijswijk,
            City::Rotterdam => self.rotterdam,
        }
    }

    pub fn empty() -> (r: CitySet)
        ensures
            r@ == Set::<City>::empty(),
    {
        let r = CitySet {
            delft: false,
            eindhoven: false,
            den_haag: false,
            zoetermeer: false,
            rijswijk: false,
            rotterdam: false,
        };
        proof {
            assert(r@ =~= Set::<City>::empty());
        }
        r
    }

    pub fn contains(&self, c: City) -> (r: bool)
        ensures
            r == self@.contains(c),
    {
        match c {
            City::Delft => self.delft,
            City::Eindhoven => self.eindhoven,
            City::DenHaag => self.den_haag,
            City::Zoetermeer => self.zoetermeer,
            City::Rijswijk => self.rijswijk,
            City::Rotterdam => self.rotterdam,
        }
    }

    pub fn insert(&mut self, c: City)
        ensures
            final(self)@ == old(self)@.insert(c),
    {
        match c {
            City::Delft => self.delft = true,
            City::Eindhoven => self.eindhoven = true,
            City::DenHaag => self.den_haag = true,
            City::Zoetermeer => self.zoetermeer = true,
            City::Rijswijk => self.rijswijk = true,
            City::Rotterdam => self.rotterdam = true,
        }
        proof {
            assert(self@ =~= old(self)@.insert(c));
        }
    }

    /// Removes the city; true iff it was present.
    pub fn remove(&mut self, c: City) -> (r: bool)
        ensures
            final(self)@ == old(self)@.remove(c),
            r == old(self)@.contains(c),
    {
        let was = self.contains(c);
        match c {
            City::Delft => self.delft = false,
            City::Eindhoven => self.eindhoven = false,
            City::DenHaag => self.den_haag = false,
            City::Zoetermeer => self.zoetermeer = false,
            City::Rijswijk => self.rijswijk = false,
            City::Rotterdam => self.rotterdam = false,
        }
        proof {
            assert(self@ =~= old(self)@.remove(c));
        }
        was
    }

    pub fn union(self, other: CitySet) -> (r: CitySet)
        ensures
            r@ == self@.union(other@),
    {
        let r = CitySet {
            delft: self.delft || other.delft,
            eindhoven: self.eindhoven || other.eindhoven,
            den_haag: self.den_haag || other.den_haag,
            zoetermeer: self.zoetermeer || other.zoetermeer,
            rijswijk: self.rijswijk || other.rijswijk,
            rotterdam: self.rotterdam || other.rotterdam,
        };
        proof {
            assert(r@ =~= self@.union(other@));
        }
        r
    }

    pub fn is_empty(&self) -> (r: bool)
        ensures
            r == (self@ == Set::<City>::empty()),
    {
        let r = !(self.delft || self.eindhoven || self.den_haag || self.zoetermeer || self.rijswijk
            || self.rotterdam);
        proof {
            if r {
                assert(self@ =~= Set::<City>::empty());
            } else {
                assert(exists|c: City| self@.contains(c)) by {
                    if self.delft {
                        assert(self@.contains(City::Delft));
                    } else if self.eindhoven {
                        assert(self@.contains(City::Eindhoven));
                    } else if self.den_haag {
                        assert(self@.contains(City::DenHaag));
                    } else if self.zoetermeer {
                        assert(self@.contains(City::Zoetermeer));
                    } else if self.rijswijk {
                        assert(self@.contains(City::Rijswijk));
                    } else {
                        assert(self@.contains(City::Rotterdam));
                    }
                }
            }
        }
        r
    }

    /// The cities of the set, each exactly once, in the closed set's order.
    pub fn to_vec(&self) -> (r: Vec<City>)
        ensures
            r@ == spec_city_seq_of(self@),
    {
        let mut r: Vec<City> = Vec::new();
        let ghost g0 = Seq::<City>::empty();
        if self.delft {
            r.push(City::Delft);
        }
        let ghost g1 = g0 + (if self.delft { seq![City::Delft] } else { Seq::empty() });
        proof {
            assert(r@ =~= g1);
        }
        if self.eindhoven {
            r.push(City::Eindhoven);
        }
        let ghost g2 = g1 + (if self.eindhoven { seq![City::Eindhoven] } else { Seq::empty() });
        proof {
            assert(r@ =~= g2);
        }
        if self.den_haag {
            r.push(City::DenHaag);
        }
        let ghost g3 = g2 + (if self.den_haag { seq![City::DenHaag] } else { Seq::empty() });
        proof {
            assert(r@ =~= g3);
        }
        if self.zoetermeer {
            r.push(City::Zoetermeer);
        }
        let ghost g4 = g3 + (if self.zoetermeer { seq![City::Zoetermeer] } else { Seq::empty() });
        proof {
            assert(r@ =~= g4);
        }
        if self.rijswijk {
            r.push(City::Rijswijk);
        }
        let ghost g5 = g4 + (if self.rijswijk { seq![City::Rijswijk] } else { Seq::empty() });
        proof {
            assert(r@ =~= g5);
        }
        if self.rotterdam {
            r.push(City::Rotterdam);
        }
        let ghost g6 = g5 + (if self.rotterdam { seq![City::Rotterdam] } else { Seq::empty() });
        proof {
            assert(r@ =~= g6);
            assert(g6 =~= spec_city_seq_of(self@));
        }
        r
    }
}

/// A set of cities as a sequence, each member exactly once, in the closed
/// set's order.
pub open spec fn spec_city_seq_of(s: Set<City>) -> Seq<City> {
    (if s.contains(City::Delft) {
        seq![City::Delft]
    } else {
        Seq::empty()
    }) + (if s.contains(City::Eindhoven) {
        seq![City::Eindhoven]
    } else {
        Seq::empty()
    }) + (if s.contains(City::DenHaag) {
        seq![City::DenHaag]
    } else {
        Seq::empty()
    }) + (if s.contains(City::Zoetermeer) {
        seq![City::Zoetermeer]
    } else {
        Seq::empty()
    }) + (if s.contains(City::Rijswijk) {
        seq![City::Rijswijk]
    } else {
        Seq::empty()
    }) + (if s.contains(City::Rotterdam) {
        seq![City::Rotterdam]
    } else {
        Seq::empty()
    })
}

impl View for CitySet {
    type V = Set<City>;

    open spec fn view(&self) -> Set<City> {
        Set::new(|c: City| self.spec_contains(c))
    }
}

/// No two entries name the same subscriber.
pub open spec fn unique_keys(s: Seq<(i64, CitySet)>) -> bool {
    forall|i: int, j: int|
        #![trigger s[i], s[j]]
        0 <= i < j < s.len() ==> s[i].0 != s[j].0
}

/// The watchlist stored for a subscriber: the first (with unique keys: the
/// only) entry naming it.
pub open spec fn spec_lookup(s: Seq<(i64, CitySet)>, sub: i64) -> Option<CitySet>
    decreases s.len(),
{
    if s.len() == 0 {
        None
    } else if s[0].0 == sub {
        Some(s[0].1)
    } else {
        spec_lookup(s.drop_first(), sub)
    }
}

proof fn lemma_unique_keys_drop_first(s: Seq<(i64, CitySet)>)
    requires
        unique_keys(s),
        s.len() > 0,
    ensures
        unique_keys(s.drop_first()),
{
    assert forall|i: int, j: int|
        0 <= i < j < s.drop_first().len() implies (#[trigger] s.drop_first()[i]).0 != (
    #[trigger] s.drop_first()[j]).0 by {
        assert(s.drop_first()[i] == s[i + 1]);
        assert(s.drop_first()[j] == s[j + 1]);
    }
}

/// Updating an entry's set in place keeps the keys unique.
proof fn lemma_unique_keys_update(s: Seq<(i64, CitySet)>, i: int, cs: CitySet)
    requires
        unique_keys(s),
        0 <= i < s.len(),
    ensures
        unique_keys(s.update(i, (s[i].0, cs))),
{
    let t = s.update(i, (s[i].0, cs));
    assert forall|a: int, b: int|
        #![trigger t[a], t[b]]
        0 <= a < b < t.len() implies t[a].0 != t[b].0 by {
        assert(t[a].0 == s[a].0);
        assert(t[b].0 == s[b].0);
    }
}

/// Appending an entry for an unknown subscriber keeps the keys unique.
proof fn lemma_unique_keys_push(s: Seq<(i64, CitySet)>, k: i64, cs: CitySet)
    requires
        unique_keys(s),
        spec_lookup(s, k) is None,
    ensures
        unique_keys(s.push((k, cs))),
{
    lemma_lookup_none(s, k);
    let t = s.push((k, cs));
    assert forall|a: int, b: int|
        #![trigger t[a], t[b]]
        0 <= a < b < t.len() implies t[a].0 != t[b].0 by {
        assert(t[a] == s[a]);
        if b < s.len() {
            assert(t[b] == s[b]);
        } else {
            assert(t[b] == (k, cs));
        }
    }
}

/// Removing an entry keeps the keys unique.
proof fn lemma_unique_keys_remove(s: Seq<(i64, CitySet)>, i: int)
    requires
        unique_keys(s),
        0 <= i < s.len(),
    ensures
        unique_keys(s.remove(i)),
{
    let t = s.remove(i);
    assert forall|a: int, b: int|
        #![trigger t[a], t[b]]
        0 <= a < b < t.len() implies t[a].0 != t[b].0 by {
        if a < i {
            assert(t[a] == s[a]);
        } else {
            assert(t[a] == s[a + 1]);
        }
        if b < i {
            assert(t[b] == s[b]);
        } else {
            assert(t[b] == s[b + 1]);
        }
    }
}

/// A lookup misses exactly when no entry names the subscriber.
proof fn lemma_lookup_none(s: Seq<(i64, CitySet)>, sub: i64)
    ensures
        spec_lookup(s, sub) is None <==> (forall|i: int|
            0 <= i < s.len() ==> (#[trigger] s[i]).0 != sub),
    decreases s.len(),
{
    if s.len() > 0 {
        lemma_lookup_none(s.drop_first(), sub);
        assert forall|i: int| 0 <= i < s.drop_first().len() implies s.drop_first()[i] == s[i + 1] by {}
        if s[0].0 != sub && spec_lookup(s, sub) is None {
            assert forall|i: int| 0 <= i < s.len() implies (#[trigger] s[i]).0 != sub by {
                if i > 0 {
                    assert(s.drop_first()[i - 1] == s[i]);
                }
            }
        }
    }
}

/// With unique keys, the entry at any index is what a lookup of its
/// subscriber finds.
proof fn lemma_lookup_at_index(s: Seq<(i64, CitySet)>, i: int)
    requires
        unique_keys(s),
        0 <= i < s.len(),
    ensures
        spec_lookup(s, s[i].0) == Some(s[i].1),
    decreases s.len(),
{
    if i > 0 {
        lemma_unique_keys_drop_first(s);
        lemma_lookup_at_index(s.drop_first(), i - 1);
        assert(s.drop_first()[i - 1] == s[i]);
    }
}

/// A hit names some index holding exactly the subscriber and its set.
proof fn lemma_lookup_some_index(s: Seq<(i64, CitySet)>, sub: i64)
    requires
        spec_lookup(s, sub) is Some,
    ensures
        exists|i: int|
            0 <= i < s.len() && (#[trigger] s[i]).0 == sub && s[i].1 == spec_lookup(s, sub)->Some_0,
    decreases s.len(),
{
    if s.len() > 0 && s[0].0 != sub {
        lemma_lookup_some_index(s.drop_first(), sub);
        let j = choose|j: int|
            0 <= j < s.drop_first().len() && (#[trigger] s.drop_first()[j]).0 == sub
                && s.drop_first()[j].1 == spec_lookup(s.drop_first(), sub)->Some_0;
        assert(s[j + 1] == s.drop_first()[j]);
    }
}

/// Updating the set at an index, keeping its key, changes only that
/// subscriber's lookup.
proof fn lemma_lookup_update(s: Seq<(i64, CitySet)>, i: int, cs: CitySet, sub: i64)
    requires
        unique_keys(s),
        0 <= i < s.len(),
    ensures
        spec_lookup(s.update(i, (s[i].0, cs)), sub) == if s[i].0 == sub {
            Some(cs)
        } else {
            spec_lookup(s, sub)
        },
    decreases s.len(),
{
    let t = s.update(i, (s[i].0, cs));
    if i == 0 {
        assert(t.drop_first() =~= s.drop_first());
    } else {
        assert(t[0] == s[0]);
        lemma_unique_keys_drop_first(s);
        lemma_lookup_update(s.drop_first(), i - 1, cs, sub);
        assert(t.drop_first() =~= s.drop_first().update(i - 1, (s.drop_first()[i - 1].0, cs)));
        if s[0].0 == sub {
            assert(s[i].0 != sub);
        }
    }
}

/// Appending an entry with a fresh key changes only that subscriber's
/// lookup.
proof fn lemma_lookup_push(s: Seq<(i64, CitySet)>, k: i64, cs: CitySet, sub: i64)
    ensures
        spec_lookup(s.push((k, cs)), sub) == if spec_lookup(s, sub) is Some {
            spec_lookup(s, sub)
        } else if sub == k {
            Some(cs)
        } else {
            None
        },
    decreases s.len(),
{
    let t = s.push((k, cs));
    assert(t.len() == s.len() + 1);
    if s.len() == 0 {
        assert(t[0] == (k, cs));
        assert(t.drop_first() =~= Seq::<(i64, CitySet)>::empty());
        assert(spec_lookup(t.drop_first(), sub) is None);
    } else {
        assert(t[0] == s[0]);
        lemma_lookup_push(s.drop_first(), k, cs, sub);
        assert(t.drop_first() =~= s.drop_first().push((k, cs)));
        assert(spec_lookup(t.drop_first(), sub) == spec_lookup(s.drop_first().push((k, cs)), sub));
    }
}

/// Removing an entry changes only that subscriber's lookup.
proof fn lemma_lookup_remove(s: Seq<(i64, CitySet)>, i: int, sub: i64)
    requires
        unique_keys(s),
        0 <= i < s.len(),
    ensures
        spec_lookup(s.remove(i), sub) == if s[i].0 == sub {
            None::<CitySet>
        } else {
            spec_lookup(s, sub)
        },
    decreases s.len(),
{
    let t = s.remove(i);
    if i == 0 {
        assert(t =~= s.drop_first());
        if s[0].0 == sub {
            lemma_lookup_none_of_unique_tail(s, sub);
        }
    } else {
        assert(t[0] == s[0]);
        lemma_unique_keys_drop_first(s);
        lemma_lookup_remove(s.drop_first(), i - 1, sub);
        assert(t.drop_first() =~= s.drop_first().remove(i - 1));
        if s[0].0 == sub {
            assert(s[i].0 != sub);
        }
    }
}

/// With unique keys, the head's subscriber does not recur in the tail.
proof fn lemma_lookup_none_of_unique_tail(s: Seq<(i64, CitySet)>, sub: i64)
    requires
        unique_keys(s),
        s.len() > 0,
        s[0].0 == sub,
    ensures
        spec_lookup(s.drop_first(), sub) is None,
{
    lemma_lookup_none(s.drop_first(), sub);
    assert forall|i: int| 0 <= i < s.drop_first().len() implies (#[trigger] s.drop_first()[i]).0
        != sub by {
        assert(s.drop_first()[i] == s[i + 1]);
    }
}

/// Subscriber → set of watched cities.  A pure data container: no
/// operation fails, absence is an empty result.
pub struct Registry {
    entries: Vec<(i64, CitySet)>,
}

impl Registry {
    /// Well-formed: no subscriber has two entries.
    pub closed spec fn wf(self) -> bool {
        unique_keys(self.entries@)
    }

    /// Whether the subscriber has an entry (created by a watch, removed
    /// only by unsubscribing).
    pub closed spec fn registered(self, sub: i64) -> bool {
        spec_lookup(self.entries@, sub) is Some
    }

    /// The cities the subscriber watches; empty when absent.
    pub closed spec fn watched(self, sub: i64) -> Set<City> {
        match spec_lookup(self.entries@, sub) {
            Some(cs) => cs@,
            None => Set::empty(),
        }
    }

    /// Whether nobody at all is registered.
    pub open spec fn spec_is_empty(self) -> bool {
        forall|s: i64| !self.registered(s)
    }

    pub fn new() -> (r: Registry)
        ensures
            r.wf(),
            forall|s: i64| !r.registered(s),
            forall|s: i64| r.watched(s) == Set::<City>::empty(),
    {
        Registry { entries: Vec::new() }
    }

    fn find_index(&self, sub: i64) -> (r: Option<usize>)
        ensures
            match r {
                Some(i) => i < self.entries@.len() && self.entries@[i as int].0 == sub
                    && spec_lookup(self.entries@, sub) == Some(self.entries@[i as int].1),
                None => spec_lookup(self.entries@, sub) is None,
            },
    {
        let s = Ghost(self.entries@);
        proof {
            assert(s@.skip(0) =~= s@);
        }
        let mut j: usize = 0;
        while j < self.entries.len()
            invariant
                0 <= j <= s@.len(),
                s@ == self.entries@,
                spec_lookup(s@, sub) == spec_lookup(s@.skip(j as int), sub),
            decreases s@.len() - j,
        {
            if self.entries[j].0 == sub {
                proof {
                    assert(s@.skip(j as int)[0] == s@[j as int]);
                }
                return Some(j);
            }
            proof {
                assert(s@.skip(j as int)[0] == s@[j as int]);
                assert(s@.skip(j as int).drop_first() =~= s@.skip(j as int + 1));
            }
            j = j + 1;
        }
        proof {
            assert(s@.skip(s@.len() as int) =~= Seq::<(i64, CitySet)>::empty());
        }
        None
    }

    /// Idempotent insert: after the call the subscriber is registered and
    /// watches the city, and nothing else changes.
    pub fn watch(&mut self, sub: i64, city: City)
        requires
            old(self).wf(),
        ensures
            final(self).wf(),
            final(self).registered(sub),
            final(self).watched(sub) == old(self).watched(sub).insert(city),
            forall|s: i64| s != sub ==> final(self).registered(s) == old(self).registered(s),
            forall|s: i64| s != sub ==> final(self).watched(s) == old(self).watched(s),
    {
        let ghost s0 = self.entries@;
        match self.find_index(sub) {
            Some(i) => {
                let mut cs = self.entries[i].1;
                cs.insert(city);
                self.entries.set(i, (sub, cs));
                proof {
                    assert(self.entries@ =~= s0.update(i as int, (s0[i as int].0, cs)));
                    lemma_unique_keys_update(s0, i as int, cs);
                    assert forall|s: i64| true implies spec_lookup(self.entries@, s) == (if s == sub {
                        Some(cs)
                    } else {
                        spec_lookup(s0, s)
                    }) by {
                        lemma_lookup_update(s0, i as int, cs, s);
                    }
                }
            }
            None => {
                let mut cs = CitySet::empty();
                cs.insert(city);
                self.entries.push((sub, cs));
                proof {
                    lemma_unique_keys_push(s0, sub, cs);
                    assert forall|s: i64| true implies spec_lookup(self.entries@, s) == (if s == sub {
                        Some(cs)
                    } else {
                        spec_lookup(s0, s)
                    }) by {
                        lemma_lookup_push(s0, sub, cs, s);
                    }
                    assert(old(self).watched(sub) =~= Set::<City>::empty());
                    assert(self.watched(sub) =~= old(self).watched(sub).insert(city));
                }
            }
        }
    }

    /// Removes the city from the subscriber's watchlist; true iff it was
    /// present.  An unknown subscriber stays unknown: only a watch creates
    /// an entry.
    pub fn unwatch(&mut self, sub: i64, city: City) -> (r: bool)
        requires
            old(self).wf(),
        ensures
            final(self).wf(),
            final(self).registered(sub) == old(self).registered(sub),
            final(self).watched(sub) == old(self).watched(sub).remove(city),
            r == old(self).watched(sub).contains(city),
            !old(self).registered(sub) ==> *final(self) == *old(self),
            forall|s: i64| s != sub ==> final(self).registered(s) == old(self).registered(s),
            forall|s: i64| s != sub ==> final(self).watched(s) == old(self).watched(s),
    {
        let ghost s0 = self.entries@;
        match self.find_index(sub) {
            Some(i) => {
                let mut cs = self.entries[i].1;
                let was = cs.remove(city);
                self.entries.set(i, (sub, cs));
                proof {
                    assert(self.entries@ =~= s0.update(i as int, (s0[i as int].0, cs)));
                    lemma_unique_keys_update(s0, i as int, cs);
                    assert forall|s: i64| true implies spec_lookup(self.entries@, s) == (if s == sub {
                        Some(cs)
                    } else {
                        spec_lookup(s0, s)
                    }) by {
                        lemma_lookup_update(s0, i as int, cs, s);
                    }
                }
                was
            }
            None => {
                proof {
                    assert(old(self).watched(sub) =~= Set::<City>::empty());
                    assert(self.watched(sub) =~= old(self).watched(sub).remove(city));
                }
                false
            }
        }
    }

    /// Removes the subscriber's whole entry; the prior watchlist when one
    /// existed, nothing otherwise.
    pub fn unsubscribe_all(&mut self, sub: i64) -> (r: Option<CitySet>)
        requires
            old(self).wf(),
        ensures
            final(self).wf(),
            !final(self).registered(sub),
            final(self).watched(sub) == Set::<City>::empty(),
            match r {
                Some(cs) => old(self).registered(sub) && cs@ == old(self).watched(sub),
                None => !old(self).registered(sub),
            },
            forall|s: i64| s != sub ==> final(self).registered(s) == old(self).registered(s),
            forall|s: i64| s != sub ==> final(self).watched(s) == old(self).watched(s),
    {
        let ghost s0 = self.entries@;
        match self.find_index(sub) {
            Some(i) => {
                let (_, cs) = self.entries.remove(i);
                proof {
                    lemma_unique_keys_remove(s0, i as int);
                    assert forall|s: i64| true implies spec_lookup(self.entries@, s) == (if s == sub {
                        None::<CitySet>
                    } else {
                        spec_lookup(s0, s)
                    }) by {
                        lemma_lookup_remove(s0, i as int, s);
                    }
                }
                Some(cs)
            }
            None => None,
        }
    }

    /// The subscriber's watchlist; the empty set when absent.
    pub fn cities_of(&self, sub: i64) -> (r: CitySet)
        ensures
            r@ == self.watched(sub),
    {
        match self.find_index(sub) {
            Some(i) => self.entries[i].1,
            None => {
                let r = CitySet::empty();
                proof {
                    assert(r@ =~= self.watched(sub));
                }
                r
            }
        }
    }

    /// The subscriber's watchlist when registered, nothing otherwise.
    pub fn lookup(&self, sub: i64) -> (r: Option<CitySet>)
        ensures
            match r {
                Some(cs) => self.registered(sub) && cs@ == self.watched(sub),
                None => !self.registered(sub),
            },
    {
        match self.find_index(sub) {
            Some(i) => Some(self.entries[i].1),
            None => None,
        }
    }

    pub fn is_empty(&self) -> (r: bool)
        requires
            self.wf(),
        ensures
            r == self.spec_is_empty(),
    {
        let r = self.entries.len() == 0;
        proof {
            if r {
                assert forall|s: i64| !self.registered(s) by {
                    lemma_lookup_none(self.entries@, s);
                }
            } else {
                lemma_lookup_at_index(self.entries@, 0);
                assert(self.registered(self.entries@[0].0));
            }
        }
        r
    }

    /// Every registered subscriber, each exactly once.
    pub fn subscribers(&self) -> (r: Vec<i64>)
        requires
            self.wf(),
        ensures
            r@.no_duplicates(),
            forall|s: i64| r@.contains(s) <==> self.registered(s),
    {
        let mut r: Vec<i64> = Vec::new();
        let mut j: usize = 0;
        while j < self.entries.len()
            invariant
                0 <= j <= self.entries@.len(),
                r@.len() == j,
                forall|k: int| 0 <= k < j ==> r@[k] == (#[trigger] self.entries@[k]).0,
            decreases self.entries@.len() - j,
        {
            r.push(self.entries[j].0);
            j = j + 1;
        }
        proof {
            assert forall|a: int, b: int| 0 <= a < b < r@.len() implies r@[a] != r@[b] by {
                assert(self.entries@[a].0 == r@[a]);
                assert(self.entries@[b].0 == r@[b]);
            }
            assert forall|s: i64| r@.contains(s) <==> self.registered(s) by {
                lemma_lookup_none(self.entries@, s);
                if r@.contains(s) {
                    let k = choose|k: int| 0 <= k < r@.len() && r@[k] == s;
                    assert(self.entries@[k].0 == s);
                }
                if self.registered(s) {
                    let k = choose|k: int|
                        0 <= k < self.entries@.len() && (#[trigger] self.entries@[k]).0 == s;
                    assert(r@[k] == s);
                }
            }
        }
        r
    }

    /// The union of every registered subscriber's watchlist: the cities the
    /// next fetch must cover.
    pub fn all_watched_cities(&self) -> (r: CitySet)
        requires
            self.wf(),
        ensures
            forall|c: City|
                r@.contains(c) <==> exists|s: i64|
                    #[trigger] self.registered(s) && self.watched(s).contains(c),
    {
        let mut acc = CitySet::empty();
        let mut j: usize = 0;
        while j < self.entries.len()
            invariant
                0 <= j <= self.entries@.len(),
                forall|c: City|
                    acc@.contains(c) <==> exists|k: int|
                        0 <= k < j && (#[trigger] self.entries@[k]).1@.contains(c),
            decreases self.entries@.len() - j,
        {
            let cs = self.entries[j].1;
            acc = acc.union(cs);
            proof {
                assert forall|c: City|
                    acc@.contains(c) <==> exists|k: int|
                        0 <= k < j + 1 && (#[trigger] self.entries@[k]).1@.contains(c) by {
                    if acc@.contains(c) {
                        if cs@.contains(c) {
                            assert(self.entries@[j as int].1@.contains(c));
                        }
                    }
                }
            }
            j = j + 1;
        }
        proof {
            assert forall|c: City|
                acc@.contains(c) <==> exists|s: i64|
                    #[trigger] self.registered(s) && self.watched(s).contains(c) by {
                if acc@.contains(c) {
                    let k = choose|k: int|
                        0 <= k < self.entries@.len() && (#[trigger] self.entries@[k]).1@.contains(
                            c,
                        );
                    lemma_lookup_at_index(self.entries@, k);
                    assert(self.registered(self.entries@[k].0));
                    assert(self.watched(self.entries@[k].0).contains(c));
                }
                if exists|s: i64| #[trigger] self.registered(s) && self.watched(s).contains(c) {
                    let s = choose|s: i64|
                        #[trigger] self.registered(s) && self.watched(s).contains(c);
                    lemma_lookup_some_index(self.entries@, s);
                    let k = choose|k: int|
                        0 <= k < self.entries@.len() && (#[trigger] self.entries@[k]).0 == s
                            && self.entries@[k].1 == spec_lookup(self.entries@, s)->Some_0;
                    assert(self.entries@[k].1@.contains(c));
                }
            }
        }
        acc
    }
}

} // verus!
