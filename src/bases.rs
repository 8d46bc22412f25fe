//! Facilities in a system, and its tech level, both gated by the starport.

use crate::tables::StarportClass;
use vstd::prelude::*;

verus! {

#[derive(Clone, Copy, Debug, PartialEq, Eq, Structural)]
pub enum Base {
    Naval,
    Scout,
    Research,
    Tas,
    Consulate,
    Pirate,
}

/// Which facilities a system holds; each is tested on its own.
#[derive(Clone, Copy, Debug, PartialEq, Eq, Structural)]
pub struct Bases {
    pub naval: bool,
    pub scout: bool,
    pub research: bool,
    pub tas: bool,
    pub consulate: bool,
    pub pirate: bool,
}

/// One two-dice roll for each facility.
#[derive(Clone, Copy, Debug, PartialEq, Eq, Structural)]
pub struct BaseRolls {
    pub naval: u8,
    pub scout: u8,
    pub research: u8,
    pub tas: u8,
    pub consulate: u8,
    pub pirate: u8,
}

impl Bases {
    pub open spec fn has(self, base: Base) -> bool {
        match base {
            Base::Naval => self.naval,
            Base::Scout => self.scout,
            Base::Research => self.research,
            Base::Tas => self.tas,
            Base::Consulate => self.consulate,
            Base::Pirate => self.pirate,
        }
    }

    pub open spec fn is_empty(self) -> bool {
        forall|b: Base| !(#[trigger] self.has(b))
    }

    /// Whether the system holds the facility.
    pub fn contains(&self, base: Base) -> (r: bool)
        ensures
            r == self.has(base),
    {
        match base {
            Base::Naval => self.naval,
            Base::Scout => self.scout,
            Base::Research => self.research,
            Base::Tas => self.tas,
            Base::Consulate => self.consulate,
            Base::Pirate => self.pirate,
        }
    }
}

impl BaseRolls {
    pub open spec fn roll(self, base: Base) -> u8 {
        match base {
            Base::Naval => self.naval,
            Base::Scout => self.scout,
            Base::Research => self.research,
            Base::Tas => self.tas,
            Base::Consulate => self.consulate,
            Base::Pirate => self.pirate,
        }
    }
}

/// The roll a facility needs under a starport class, or `None` where the
/// class does not test for it.
pub open spec fn threshold_of(class: StarportClass, base: Base) -> Option<u8> {
    match (class, base) {
        (StarportClass::A, Base::Naval) => Some(8),
        (StarportClass::A, Base::Scout) => Some(10),
        (StarportClass::A, Base::Research) => Some(8),
        (StarportClass::A, Base::Tas) => Some(4),
        (StarportClass::A, Base::Consulate) => Some(6),
        (StarportClass::B, Base::Naval) => Some(8),
        (StarportClass::B, Base::Scout) => Some(8),
        (StarportClass::B, Base::Research) => Some(10),
        (StarportClass::B, Base::Tas) => Some(6),
        (StarportClass::B, Base::Consulate) => Some(8),
        (StarportClass::B, Base::Pirate) => Some(12),
        (StarportClass::C, Base::Scout) => Some(8),
        (StarportClass::C, Base::Research) => Some(10),
        (StarportClass::C, Base::Tas) => Some(10),
        (StarportClass::C, Base::Consulate) => Some(10),
        (StarportClass::C, Base::Pirate) => Some(10),
        (StarportClass::D, Base::Scout) => Some(7),
        (StarportClass::D, Base::Pirate) => Some(12),
        (StarportClass::E, Base::Pirate) => Some(12),
        _ => None,
    }
}

/// A facility is present when its class tests for it and its roll meets the
/// threshold.
pub open spec fn base_present(class: StarportClass, base: Base, rolls: BaseRolls) -> bool {
    match threshold_of(class, base) {
        Some(t) => rolls.roll(base) >= t,
        None => false,
    }
}

/// The roll a facility needs under a starport class, if it is tested at all.
pub fn base_threshold(class: StarportClass, base: Base) -> (t: Option<u8>)
    ensures
        t == threshold_of(class, base),
{
    match class {
        StarportClass::A => match base {
            Base::Naval => Some(8),
            Base::Scout => Some(10),
            Base::Research => Some(8),
            Base::Tas => Some(4),
            Base::Consulate => Some(6),
            Base::Pirate => None,
        },
        StarportClass::B => match base {
            Base::Naval => Some(8),
            Base::Scout => Some(8),
            Base::Research => Some(10),
            Base::Tas => Some(6),
            Base::Consulate => Some(8),
            Base::Pirate => Some(12),
        },
        StarportClass::C => match base {
            Base::Naval => None,
            Base::Scout => Some(8),
            Base::Research => Some(10),
            Base::Tas => Some(10),
            Base::Consulate => Some(10),
            Base::Pirate => Some(10),
        },
        StarportClass::D => match base {
            Base::Scout => Some(7),
            Base::Pirate => Some(12),
            _ => None,
        },
        StarportClass::E => match base {
            Base::Pirate => Some(12),
            _ => None,
        },
        StarportClass::X => None,
    }
}

fn tested(class: StarportClass, base: Base, roll: u8) -> (r: bool)
    ensures
        r == (match threshold_of(class, base) {
            Some(t) => roll >= t,
            None => false,
        }),
{
    match base_threshold(class, base) {
        Some(t) => roll >= t,
        None => false,
    }
}

/// The facilities of a system with a starport of the given class.
pub fn bases_for(class: StarportClass, rolls: &BaseRolls) -> (b: Bases)
    ensures
        forall|base: Base| #[trigger] b.has(base) == base_present(class, base, *rolls),
{
    let b = Bases {
        naval: tested(class, Base::Naval, rolls.naval),
        scout: tested(class, Base::Scout, rolls.scout),
        research: tested(class, Base::Research, rolls.research),
        tas: tested(class, Base::Tas, rolls.tas),
        consulate: tested(class, Base::Consulate, rolls.consulate),
        pirate: tested(class, Base::Pirate, rolls.pirate),
    };
    assert forall|base: Base| #[trigger] b.has(base) == base_present(class, base, *rolls) by {
        match base {
            Base::Naval => {},
            Base::Scout => {},
            Base::Research => {},
            Base::Tas => {},
            Base::Consulate => {},
            Base::Pirate => {},
        }
    }
    b
}

// ---- tech level ----

pub open spec fn class_tech_term(class: StarportClass) -> int {
    match class {
        StarportClass::A => 6,
        StarportClass::B => 4,
        StarportClass::C => 2,
        StarportClass::X => -4,
        _ => 0,
    }
}

pub open spec fn size_tech_term(size: u8) -> int {
    if size <= 1 {
        2
    } else if size <= 4 {
        1
    } else {
        0
    }
}

pub open spec fn atmosphere_tech_term(atm: u8) -> int {
    if atm <= 3 || (10 <= atm <= 15) {
        1
    } else {
        0
    }
}

pub open spec fn hydrographics_tech_term(hyd: u8) -> int {
    if hyd == 0 || hyd == 9 {
        1
    } else if hyd == 10 {
        2
    } else {
        0
    }
}

pub open spec fn population_tech_term(pop: u8) -> int {
    if (1 <= pop <= 5) || pop == 9 {
        1
    } else if pop == 10 {
        2
    } else if pop == 11 {
        3
    } else if pop == 12 {
        4
    } else {
        0
    }
}

pub open spec fn government_tech_term(gov: u8) -> int {
    if gov == 0 || gov == 5 {
        1
    } else if gov == 7 {
        2
    } else if gov == 13 || gov == 14 {
        -2
    } else {
        0
    }
}

pub open spec fn tech_modifier_of(
    class: StarportClass,
    size: u8,
    atm: u8,
    hyd: u8,
    pop: u8,
    gov: u8,
) -> int {
    class_tech_term(class) + size_tech_term(size) + atmosphere_tech_term(atm)
        + hydrographics_tech_term(hyd) + population_tech_term(pop) + government_tech_term(gov)
}

fn class_tech(class: StarportClass) -> (dm: i8)
    ensures
        dm == class_tech_term(class),
{
    match class {
        StarportClass::A => 6,
        StarportClass::B => 4,
        StarportClass::C => 2,
        StarportClass::D => 0,
        StarportClass::E => 0,
        StarportClass::X => -4,
    }
}

fn size_tech(size: u8) -> (dm: i8)
    ensures
        dm == size_tech_term(size),
{
    match size {
        0 | 1 => 2,
        2 | 3 | 4 => 1,
        _ => 0,
    }
}

fn atmosphere_tech(atm: u8) -> (dm: i8)
    ensures
        dm == atmosphere_tech_term(atm),
{
    match atm {
        0 | 1 | 2 | 3 | 10 | 11 | 12 | 13 | 14 | 15 => 1,
        _ => 0,
    }
}

fn hydrographics_tech(hyd: u8) -> (dm: i8)
    ensures
        dm == hydrographics_tech_term(hyd),
{
    match hyd {
        0 | 9 => 1,
        10 => 2,
        _ => 0,
    }
}

fn population_tech(pop: u8) -> (dm: i8)
    ensures
        dm == population_tech_term(pop),
{
    match pop {
        1 | 2 | 3 | 4 | 5 | 9 => 1,
        10 => 2,
        11 => 3,
        12 => 4,
        _ => 0,
    }
}

fn government_tech(gov: u8) -> (dm: i8)
    ensures
        dm == government_tech_term(gov),
{
    match gov {
        0 | 5 => 1,
        7 => 2,
        13 | 14 => -2,
        _ => 0,
    }
}

/// The modifier on the tech-level roll: one term each for starport class,
/// size, atmosphere, hydrographics, population and government.
pub fn tech_modifier(class: StarportClass, size: u8, atm: u8, hyd: u8, pop: u8, gov: u8) -> (dm:
    i8)
    ensures
        dm == tech_modifier_of(class, size, atm, hyd, pop, gov),
        -6 <= dm <= 17,
{
    class_tech(class) + size_tech(size) + atmosphere_tech(atm) + hydrographics_tech(hyd)
        + population_tech(pop) + government_tech(gov)
}

} // verus!
