//! One world: the derivation chain from its rolls to a finished record.

use crate::bases::{bases_for, tech_modifier, tech_modifier_of, BaseRolls, Bases, base_present, Base};
use crate::classify::{codes_for, codes_of, zone_for, zone_of, Codes, Profile, Zone};
use crate::dice::{cap, floor_add, rolld3, rolld6, rollnd6, safer_add};
use crate::tables::{
    berthing_cost, berthing_scale, class_of, faction_count_modifier, faction_count_modifier_of,
    faction_for, faction_of, hydrographics_for, hydrographics_of, is_2d6, starport_class,
    temperature_band, temperature_for, temperature_modifier, temperature_modifier_of, Faction,
    Starport, Temperature,
};
use vstd::prelude::*;

verus! {

/// The two rolls behind one faction: its strength and its government.
#[derive(Clone, Copy, Debug, PartialEq, Eq, Structural)]
pub struct FactionRolls {
    pub strength: u8,
    pub government: u8,
}

/// The most factions a world can have: a three-sided die plus one.
pub const MAX_FACTIONS: usize = 4;

/// Every roll that one world's derivation reads, in the order it reads them.
/// Sums of two dice are kept as sums.
#[derive(Clone, Debug)]
pub struct Rolls {
    pub size: u8,
    pub atmosphere: u8,
    pub temperature: u8,
    pub hydrographics: u8,
    pub population: u8,
    pub government: u8,
    /// One three-sided die.
    pub faction_count: u8,
    /// The rolls of the factions, of which the first `faction_count` (modified) are used.
    pub factions: Vec<FactionRolls>,
    pub law: u8,
    pub starport: u8,
    /// One six-sided die.
    pub berthing: u8,
    pub bases: BaseRolls,
    /// One six-sided die.
    pub tech: u8,
}

impl Rolls {
    /// Each roll lies in the range of its dice, and there are rolls for the
    /// largest number of factions.
    pub open spec fn wf(&self) -> bool {
        &&& is_2d6(self.size)
        &&& is_2d6(self.atmosphere)
        &&& is_2d6(self.temperature)
        &&& is_2d6(self.hydrographics)
        &&& is_2d6(self.population)
        &&& is_2d6(self.government)
        &&& 1 <= self.faction_count <= 3
        &&& self.factions@.len() >= MAX_FACTIONS
        &&& forall|i: int|
            0 <= i < self.factions@.len() ==> is_2d6(#[trigger] self.factions@[i].strength)
                && is_2d6(self.factions@[i].government)
        &&& is_2d6(self.law)
        &&& is_2d6(self.starport)
        &&& 1 <= self.berthing <= 6
        &&& is_2d6(self.bases.naval)
        &&& is_2d6(self.bases.scout)
        &&& is_2d6(self.bases.research)
        &&& is_2d6(self.bases.tas)
        &&& is_2d6(self.bases.consulate)
        &&& is_2d6(self.bases.pirate)
        &&& 1 <= self.tech <= 6
    }
}

/// A finished world.
#[derive(Clone, Debug)]
pub struct World {
    pub size: u8,
    pub atmosphere: u8,
    pub temperature: Temperature,
    pub starport: Starport,
    pub hydrographics: u8,
    pub population: u8,
    pub government: u8,
    pub factions: Vec<Faction>,
    pub law: u8,
    pub tech: u8,
    pub bases: Bases,
    pub codes: Codes,
    pub zone: Zone,
}

impl World {
    pub open spec fn profile_of(self) -> Profile {
        Profile {
            size: self.size,
            atmosphere: self.atmosphere,
            hydrographics: self.hydrographics,
            population: self.population,
            government: self.government,
            law: self.law,
            tech: self.tech,
        }
    }

    /// The number of factions for a government code and a three-sided die.
    pub open spec fn faction_count_of(gov: u8, d3: u8) -> int {
        floor_add(d3 as int, faction_count_modifier_of(gov))
    }

    /// Each attribute is what its rule gives from the rolls and the attributes
    /// derived before it.
    pub open spec fn derived_from(self, r: Rolls) -> bool {
        &&& self.size == floor_add(r.size as int, -2)
        &&& self.atmosphere == floor_add(r.atmosphere as int, self.size - 7)
        &&& self.temperature == temperature_band(
            floor_add(r.temperature as int, temperature_modifier_of(self.atmosphere)),
        )
        &&& self.hydrographics == hydrographics_of(
            self.size,
            self.atmosphere,
            self.temperature,
            r.hydrographics,
        )
        &&& self.population == floor_add(r.population as int, -2)
        &&& self.government == cap(floor_add(r.government as int, self.population - 7), 13)
        &&& self.factions@.len() == Self::faction_count_of(self.government, r.faction_count)
        &&& forall|i: int|
            0 <= i < self.factions@.len() ==> #[trigger] self.factions@[i] == faction_of(
                r.factions@[i].strength,
                r.factions@[i].government,
            )
        &&& self.law == cap(floor_add(r.law as int, self.government - 7), 9)
        &&& self.starport.class == class_of(r.starport)
        &&& self.starport.berthing == berthing_scale(self.starport.class) * r.berthing
        &&& forall|b: Base| #[trigger]
            self.bases.has(b) == base_present(self.starport.class, b, r.bases)
        &&& self.tech == floor_add(
            r.tech as int,
            tech_modifier_of(
                self.starport.class,
                self.size,
                self.atmosphere,
                self.hydrographics,
                self.population,
                self.government,
            ),
        )
        &&& self.zone == zone_of(self.profile_of())
        &&& self.codes == codes_of(self.profile_of())
    }

    /// What the derivation chain makes of some rolls within the dice's ranges.
    pub open spec fn is_derivable(self) -> bool {
        exists|r: Rolls| r.wf() && #[trigger] self.derived_from(r)
    }

    /// The attribute vector that classification reads.
    pub fn profile(&self) -> (p: Profile)
        ensures
            p == self.profile_of(),
    {
        Profile {
            size: self.size,
            atmosphere: self.atmosphere,
            hydrographics: self.hydrographics,
            population: self.population,
            government: self.government,
            law: self.law,
            tech: self.tech,
        }
    }

    /// Runs the derivation chain on the given rolls.
    pub fn derive(r: &Rolls) -> (w: World)
        requires
            r.wf(),
        ensures
            w.derived_from(*r),
    {
        let size = safer_add(r.size, -2);
        let atmosphere = safer_add(r.atmosphere, size as i8 - 7);
        let temperature = temperature_for(
            safer_add(r.temperature, temperature_modifier(atmosphere)),
        );
        let hydrographics = hydrographics_for(size, atmosphere, temperature, r.hydrographics);
        let population = safer_add(r.population, -2);
        let g = safer_add(r.government, population as i8 - 7);
        let government = if g > 13 {
            13
        } else {
            g
        };
        let factions = Self::factions_for(government, r);
        let l = safer_add(r.law, government as i8 - 7);
        let law = if l > 9 {
            9
        } else {
            l
        };
        let class = starport_class(r.starport);
        let starport = Starport { class, berthing: berthing_cost(class, r.berthing) };
        let bases = bases_for(class, &r.bases);
        let tech = safer_add(
            r.tech,
            tech_modifier(class, size, atmosphere, hydrographics, population, government),
        );
        let mut w = World {
            size,
            atmosphere,
            temperature,
            starport,
            hydrographics,
            population,
            government,
            factions,
            law,
            tech,
            bases,
            codes: Codes {
                agricultural: false,
                asteroid: false,
                barren: false,
                desert: false,
                fluid_oceans: false,
                garden: false,
                high_pop: false,
                high_tech: false,
                ice_capped: false,
                industrial: false,
                low_pop: false,
                low_tech: false,
                non_agricultural: false,
                non_industrial: false,
                poor: false,
                rich: false,
                vacuum: false,
                water_world: false,
            },
            zone: Zone::Unclassified,
        };
        let p = w.profile();
        w.zone = zone_for(&p);
        w.codes = codes_for(&p);
        w
    }

    /// The factions of a world with the given government.
    fn factions_for(government: u8, r: &Rolls) -> (f: Vec<Faction>)
        requires
            r.wf(),
            government <= 13,
        ensures
            f@.len() == Self::faction_count_of(government, r.faction_count),
            forall|i: int|
                0 <= i < f@.len() ==> #[trigger] f@[i] == faction_of(
                    r.factions@[i].strength,
                    r.factions@[i].government,
                ),
    {
        let count = safer_add(r.faction_count, faction_count_modifier(government));
        let mut factions: Vec<Faction> = Vec::new();
        let mut i: usize = 0;
        while i < count as usize
            invariant
                r.wf(),
                count <= MAX_FACTIONS,
                count == Self::faction_count_of(government, r.faction_count),
                i <= count,
                factions@.len() == i,
                forall|j: int|
                    0 <= j < i ==> #[trigger] factions@[j] == faction_of(
                        r.factions@[j].strength,
                        r.factions@[j].government,
                    ),
            decreases count - i,
        {
            let fr = r.factions[i];
            factions.push(faction_for(fr.strength, fr.government));
            i = i + 1;
        }
        factions
    }
}

fn roll2d6() -> (r: u8)
    ensures
        is_2d6(r),
{
    rollnd6(2)
}

impl Rolls {
    /// Rolls every die that a world's derivation may read. Dice that the
    /// derivation then leaves unread (factions beyond the count, facilities
    /// that the starport does not test) do not change the odds of those it reads.
    pub fn roll() -> (r: Rolls)
        ensures
            r.wf(),
    {
        let size = roll2d6();
        let atmosphere = roll2d6();
        let temperature = roll2d6();
        let hydrographics = roll2d6();
        let population = roll2d6();
        let government = roll2d6();
        let faction_count = rolld3();
        let mut factions: Vec<FactionRolls> = Vec::new();
        let mut i: usize = 0;
        while i < MAX_FACTIONS
            invariant
                i <= MAX_FACTIONS,
                factions@.len() == i,
                forall|j: int|
                    0 <= j < i ==> is_2d6(#[trigger] factions@[j].strength) && is_2d6(
                        factions@[j].government,
                    ),
            decreases MAX_FACTIONS - i,
        {
            let strength = roll2d6();
            let government = roll2d6();
            factions.push(FactionRolls { strength, government });
            i = i + 1;
        }
        let law = roll2d6();
        let starport = roll2d6();
        let berthing = rolld6();
        let bases = BaseRolls {
            naval: roll2d6(),
            scout: roll2d6(),
            research: roll2d6(),
            tas: roll2d6(),
            consulate: roll2d6(),
            pirate: roll2d6(),
        };
        let tech = rolld6();
        Rolls {
            size,
            atmosphere,
            temperature,
            hydrographics,
            population,
            government,
            faction_count,
            factions,
            law,
            starport,
            berthing,
            bases,
            tech,
        }
    }
}

impl World {
    /// A fresh random world: whatever the dice gave, the world is what the
    /// derivation chain makes of some rolls within the dice's ranges.
    pub fn generate() -> (w: World)
        ensures
            w.is_derivable(),
    {
        let r = Rolls::roll();
        let w = World::derive(&r);
        assert(r.wf() && w.derived_from(r));
        w
    }
}

} // verus!
