//! The classification engine: a travel zone and a set of trade codes, each a
//! pure function of a world's finished attribute vector.

use vstd::prelude::*;

verus! {

/// The attributes that classification reads.
#[derive(Clone, Copy, Debug, PartialEq, Eq, Structural)]
pub struct Profile {
    pub size: u8,
    pub atmosphere: u8,
    pub hydrographics: u8,
    pub population: u8,
    pub government: u8,
    pub law: u8,
    pub tech: u8,
}

/// Travel-hazard rating. Red is only ever set by hand.
#[derive(Clone, Copy, Debug, PartialEq, Eq, Structural)]
pub enum Zone {
    Unclassified,
    Green,
    Amber,
    Red,
}

impl Default for Zone {
    fn default() -> (z: Zone)
        ensures
            z == Zone::Unclassified,
    {
        Zone::Unclassified
    }
}

impl Zone {
    /// The glyph that a world listing shows for this zone.
    pub fn symbol(&self) -> (c: char)
        ensures
            c == (match *self {
                Zone::Amber => 'A',
                Zone::Red => 'R',
                _ => ' ',
            }),
    {
        match self {
            Zone::Unclassified => ' ',
            Zone::Green => ' ',
            Zone::Amber => 'A',
            Zone::Red => 'R',
        }
    }
}

/// The eighteen trade classifications; any number of them may hold at once.
#[derive(Clone, Copy, Debug, PartialEq, Eq, Structural)]
pub struct Codes {
    pub agricultural: bool,
    pub asteroid: bool,
    pub barren: bool,
    pub desert: bool,
    pub fluid_oceans: bool,
    pub garden: bool,
    pub high_pop: bool,
    pub high_tech: bool,
    pub ice_capped: bool,
    pub industrial: bool,
    pub low_pop: bool,
    pub low_tech: bool,
    pub non_agricultural: bool,
    pub non_industrial: bool,
    pub poor: bool,
    pub rich: bool,
    pub vacuum: bool,
    pub water_world: bool,
}

/// Amber when the atmosphere is exotic or worse, the government is one of the
/// unstable kinds, or the law level is at either extreme; Green otherwise.
pub open spec fn zone_of(p: Profile) -> Zone {
    if p.atmosphere >= 10 || p.government == 0 || p.government == 7 || p.government == 10
        || p.law == 0 || p.law >= 9 {
        Zone::Amber
    } else {
        Zone::Green
    }
}

/// Each trade code as a conjunction of bounds on the attributes.
pub open spec fn codes_of(p: Profile) -> Codes {
    let (siz, atm, hyd, pop, gov, law, tl) = (
        p.size,
        p.atmosphere,
        p.hydrographics,
        p.population,
        p.government,
        p.law,
        p.tech,
    );
    Codes {
        agricultural: 4 <= atm <= 9 && 4 <= hyd <= 8 && 5 <= pop <= 7,
        asteroid: siz == 0 && atm == 0 && hyd == 0,
        barren: pop == 0 && gov == 0 && law == 0,
        desert: atm >= 2 && hyd == 0,
        fluid_oceans: atm >= 10 && hyd >= 1,
        garden: siz >= 5 && 4 <= atm <= 9 && 4 <= hyd <= 8,
        high_pop: pop >= 9,
        high_tech: tl >= 12,
        ice_capped: atm <= 1 && hyd >= 1,
        industrial: (atm == 0 || atm == 1 || atm == 2 || atm == 4 || atm == 7 || atm == 9)
            && pop >= 9,
        low_pop: 1 <= pop <= 3,
        low_tech: tl <= 5,
        non_agricultural: atm <= 3 && hyd <= 3 && pop >= 6,
        non_industrial: 4 <= pop <= 6,
        poor: 2 <= atm <= 5 && hyd <= 3,
        rich: (atm == 6 || atm == 8) && 6 <= pop <= 8,
        vacuum: atm == 0,
        water_world: hyd == 10,
    }
}

/// The travel zone of a finished attribute vector.
pub fn zone_for(p: &Profile) -> (z: Zone)
    ensures
        z == zone_of(*p),
{
    if p.atmosphere >= 10 || p.government == 0 || p.government == 7 || p.government == 10
        || p.law == 0 || p.law >= 9 {
        Zone::Amber
    } else {
        Zone::Green
    }
}

/// The trade codes of a finished attribute vector.
pub fn codes_for(p: &Profile) -> (c: Codes)
    ensures
        c == codes_of(*p),
{
    let siz = p.size;
    let atm = p.atmosphere;
    let hyd = p.hydrographics;
    let pop = p.population;
    let gov = p.government;
    let law = p.law;
    let tl = p.tech;
    Codes {
        agricultural: 4 <= atm && atm <= 9 && 4 <= hyd && hyd <= 8 && 5 <= pop && pop <= 7,
        asteroid: siz == 0 && atm == 0 && hyd == 0,
        barren: pop == 0 && gov == 0 && law == 0,
        desert: atm >= 2 && hyd == 0,
        fluid_oceans: atm >= 10 && hyd >= 1,
        garden: siz >= 5 && 4 <= atm && atm <= 9 && 4 <= hyd && hyd <= 8,
        high_pop: pop >= 9,
        high_tech: tl >= 12,
        ice_capped: atm <= 1 && hyd >= 1,
        industrial: (atm == 0 || atm == 1 || atm == 2 || atm == 4 || atm == 7 || atm == 9)
            && pop >= 9,
        low_pop: 1 <= pop && pop <= 3,
        low_tech: tl <= 5,
        non_agricultural: atm <= 3 && hyd <= 3 && pop >= 6,
        non_industrial: 4 <= pop && pop <= 6,
        poor: 2 <= atm && atm <= 5 && hyd <= 3,
        rich: (atm == 6 || atm == 8) && 6 <= pop && pop <= 8,
        vacuum: atm == 0,
        water_world: hyd == 10,
    }
}

} // verus!
