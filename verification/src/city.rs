//! The closed set of cities the listing feed supports, and the numeric
//! identifiers the feed uses for them.

use vstd::prelude::*;

verus! {

/// Numeric identifier a city has in the listing feed's query interface.
#[derive(Clone, Copy, PartialEq, Eq, Hash, Structural, Debug)]
pub struct CityId(u64);

impl CityId {
    /// The raw numeric value of this identifier.
    pub closed spec fn spec_value(self) -> u64 {
        self.0
    }

    pub fn value(self) -> (v: u64)
        ensures
            v == self.spec_value(),
    {
        self.0
    }
}

/// One of the fixed set of supported locations.  Identity is by value.
#[derive(Clone, Copy, PartialEq, Eq, Hash, Structural, Debug)]
pub enum City {
    Delft,
    Eindhoven,
    DenHaag,
    Zoetermeer,
    Rijswijk,
    Rotterdam,
}

impl City {
    /// The feed's numeric identifier for each city.
    pub open spec fn spec_id(self) -> u64 {
        match self {
            City::Delft => 26,
            City::Eindhoven => 29,
            City::DenHaag => 90,
            City::Zoetermeer => 6088,
            City::Rijswijk => 6224,
            City::Rotterdam => 25,
        }
    }

    pub fn id(&self) -> (r: CityId)
        ensures
            r.spec_value() == self.spec_id(),
    {
        match self {
            City::Delft => CityId(26),
            City::Eindhoven => CityId(29),
            City::DenHaag => CityId(90),
            City::Zoetermeer => CityId(6088),
            City::Rijswijk => CityId(6224),
            City::Rotterdam => CityId(25),
        }
    }

    /// The textual name of the city, as it appears in commands and replies.
    pub open spec fn spec_name(self) -> Seq<char> {
        match self {
            City::Delft => "Delft"@,
            City::Eindhoven => "Eindhoven"@,
            City::DenHaag => "DenHaag"@,
            City::Zoetermeer => "Zoetermeer"@,
            City::Rijswijk => "Rijswijk"@,
            City::Rotterdam => "Rotterdam"@,
        }
    }

    pub fn name(&self) -> (r: String)
        ensures
            r@ == self.spec_name(),
    {
        match self {
            City::Delft => "Delft".to_owned(),
            City::Eindhoven => "Eindhoven".to_owned(),
            City::DenHaag => "DenHaag".to_owned(),
            City::Zoetermeer => "Zoetermeer".to_owned(),
            City::Rijswijk => "Rijswijk".to_owned(),
            City::Rotterdam => "Rotterdam".to_owned(),
        }
    }

    /// Which city a piece of text names, if any.
    pub open spec fn spec_parse(s: Seq<char>) -> Option<City> {
        if s == "Delft"@ {
            Some(City::Delft)
        } else if s == "Eindhoven"@ {
            Some(City::Eindhoven)
        } else if s == "DenHaag"@ {
            Some(City::DenHaag)
        } else if s == "Zoetermeer"@ {
            Some(City::Zoetermeer)
        } else if s == "Rijswijk"@ {
            Some(City::Rijswijk)
        } else if s == "Rotterdam"@ {
            Some(City::Rotterdam)
        } else {
            None
        }
    }

    pub fn parse(s: &str) -> (r: Option<City>)
        ensures
            r == Self::spec_parse(s@),
    {
        let t = s.to_owned();
        if t == "Delft".to_owned() {
            Some(City::Delft)
        } else if t == "Eindhoven".to_owned() {
            Some(City::Eindhoven)
        } else if t == "DenHaag".to_owned() {
            Some(City::DenHaag)
        } else if t == "Zoetermeer".to_owned() {
            Some(City::Zoetermeer)
        } else if t == "Rijswijk".to_owned() {
            Some(City::Rijswijk)
        } else if t == "Rotterdam".to_owned() {
            Some(City::Rotterdam)
        } else {
            None
        }
    }

}

/// A city's name parses back to that city: the textual command
/// representation of a city round-trips exactly.
pub proof fn lemma_city_name_round_trip(c: City)
    ensures
        City::spec_parse(c.spec_name()) == Some(c),
{
    reveal_strlit("Delft");
    reveal_strlit("Eindhoven");
    reveal_strlit("DenHaag");
    reveal_strlit("Zoetermeer");
    reveal_strlit("Rijswijk");
    reveal_strlit("Rotterdam");
    // The six names differ in length, except for "Eindhoven" and
    // "Rotterdam", which differ in their first character.
    assert("Delft"@.len() == 5);
    assert("Eindhoven"@.len() == 9);
    assert("DenHaag"@.len() == 7);
    assert("Zoetermeer"@.len() == 10);
    assert("Rijswijk"@.len() == 8);
    assert("Rotterdam"@.len() == 9);
    assert("Eindhoven"@[0] == 'E');
    assert("Rotterdam"@[0] == 'R');
}

} // verus!
