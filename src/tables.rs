//! The lookup tables of the derivation chain, one step at a time.

use crate::dice::{cap, floor_add, safer_add};
use vstd::prelude::*;

verus! {

/// A sum of two six-sided dice.
pub open spec fn is_2d6(v: u8) -> bool {
    2 <= v <= 12
}

#[derive(Clone, Copy, Debug, PartialEq, Eq, Structural)]
pub enum Temperature {
    Frozen,
    Cold,
    Temperate,
    Hot,
    Roasting,
}

#[derive(Clone, Copy, Debug, PartialEq, Eq, Structural)]
pub enum FactionStrength {
    Obscure,
    Fringe,
    Minor,
    Notable,
    Significant,
    Overwhelming,
}

/// A political group on a world, apart from its overall government.
#[derive(Clone, Copy, Debug, PartialEq, Eq, Structural)]
pub struct Faction {
    pub government: u8,
    pub strength: FactionStrength,
}

#[derive(Clone, Copy, Debug, PartialEq, Eq, Structural)]
pub enum StarportClass {
    A,
    B,
    C,
    D,
    E,
    X,
}

impl StarportClass {
    /// The letter that a world listing shows for this class.
    pub fn letter(&self) -> (c: char)
        ensures
            c == (match *self {
                StarportClass::A => 'A',
                StarportClass::B => 'B',
                StarportClass::C => 'C',
                StarportClass::D => 'D',
                StarportClass::E => 'E',
                StarportClass::X => 'X',
            }),
    {
        match self {
            StarportClass::A => 'A',
            StarportClass::B => 'B',
            StarportClass::C => 'C',
            StarportClass::D => 'D',
            StarportClass::E => 'E',
            StarportClass::X => 'X',
        }
    }
}

#[derive(Clone, Copy, Debug, PartialEq, Eq, Structural)]
pub struct Starport {
    pub class: StarportClass,
    pub berthing: u32,
}

// ---- temperature ----

pub open spec fn temperature_modifier_of(atm: u8) -> int {
    if atm == 2 || atm == 3 {
        -2
    } else if atm == 4 || atm == 5 || atm == 14 {
        -1
    } else if atm == 8 || atm == 9 {
        1
    } else if atm == 10 || atm == 13 || atm == 15 {
        2
    } else if atm == 11 || atm == 12 {
        6
    } else {
        0
    }
}

pub open spec fn temperature_band(total: int) -> Temperature {
    if total <= 2 {
        Temperature::Frozen
    } else if total <= 4 {
        Temperature::Cold
    } else if total <= 9 {
        Temperature::Temperate
    } else if total <= 11 {
        Temperature::Hot
    } else {
        Temperature::Roasting
    }
}

/// The modifier on the temperature roll for an atmosphere code.
pub fn temperature_modifier(atm: u8) -> (dm: i8)
    ensures
        dm == temperature_modifier_of(atm),
{
    match atm {
        2 | 3 => -2,
        4 | 5 | 14 => -1,
        8 | 9 => 1,
        10 | 13 | 15 => 2,
        11 | 12 => 6,
        _ => 0,
    }
}

/// The temperature for a modified two-dice total.
pub fn temperature_for(total: u8) -> (t: Temperature)
    ensures
        t == temperature_band(total as int),
{
    if total <= 2 {
        Temperature::Frozen
    } else if total <= 4 {
        Temperature::Cold
    } else if total <= 9 {
        Temperature::Temperate
    } else if total <= 11 {
        Temperature::Hot
    } else {
        Temperature::Roasting
    }
}

// ---- hydrographics ----

pub open spec fn hydrographics_modifier_of(size: u8, atm: u8, temp: Temperature) -> int {
    (if atm <= 1 || (10 <= atm <= 12) { -4int } else { 0int }) + (match temp {
        Temperature::Hot => -2int,
        Temperature::Roasting => -6int,
        _ => 0int,
    }) + size - 7
}

pub open spec fn hydrographics_of(size: u8, atm: u8, temp: Temperature, roll: u8) -> int {
    if size == 0 {
        0
    } else {
        cap(floor_add(roll as int, hydrographics_modifier_of(size, atm, temp)), 10)
    }
}

/// Hydrographics from size, atmosphere, temperature and a two-dice roll, held
/// to its scale of 0 to 10; a world of size zero holds no water whatever the
/// roll.
pub fn hydrographics_for(size: u8, atm: u8, temp: Temperature, roll: u8) -> (h: u8)
    requires
        size <= 10,
        is_2d6(roll),
    ensures
        h == hydrographics_of(size, atm, temp, roll),
        h <= 10,
{
    if size == 0 {
        0
    } else {
        let mut dm: i8 = if atm <= 1 || (10 <= atm && atm <= 12) {
            -4
        } else {
            0
        };
        dm = dm + match temp {
            Temperature::Hot => -2,
            Temperature::Roasting => -6,
            _ => 0,
        };
        dm = dm + size as i8 - 7;
        let h = safer_add(roll, dm);
        if h > 10 {
            10
        } else {
            h
        }
    }
}

// ---- factions ----

pub open spec fn faction_count_modifier_of(gov: u8) -> int {
    if gov == 0 || gov == 7 {
        1
    } else if 10 <= gov <= 13 {
        -1
    } else {
        0
    }
}

pub open spec fn strength_band(sum: u8) -> FactionStrength {
    if sum == 4 || sum == 5 {
        FactionStrength::Fringe
    } else if sum == 6 || sum == 7 {
        FactionStrength::Minor
    } else if sum == 8 || sum == 9 {
        FactionStrength::Notable
    } else if sum == 10 || sum == 11 {
        FactionStrength::Significant
    } else if sum == 12 {
        FactionStrength::Overwhelming
    } else {
        FactionStrength::Obscure
    }
}

/// The faction that a strength roll and a government roll give.
pub open spec fn faction_of(strength_roll: u8, government_roll: u8) -> Faction {
    Faction {
        government: cap(floor_add(government_roll as int, strength_roll - 7), 13) as u8,
        strength: strength_band(strength_roll),
    }
}

/// The modifier on the three-sided faction-count roll for a government code.
pub fn faction_count_modifier(gov: u8) -> (dm: i8)
    ensures
        dm == faction_count_modifier_of(gov),
{
    match gov {
        0 | 7 => 1,
        10 | 11 | 12 | 13 => -1,
        _ => 0,
    }
}

/// The strength band of a two-dice roll; anything outside the table counts as
/// obscure.
pub fn faction_strength(sum: u8) -> (s: FactionStrength)
    ensures
        s == strength_band(sum),
{
    match sum {
        2 | 3 => FactionStrength::Obscure,
        4 | 5 => FactionStrength::Fringe,
        6 | 7 => FactionStrength::Minor,
        8 | 9 => FactionStrength::Notable,
        10 | 11 => FactionStrength::Significant,
        12 => FactionStrength::Overwhelming,
        _ => FactionStrength::Obscure,
    }
}

/// A faction from its strength roll and a roll for its government, which the
/// strength modifies as population modifies a world's.
pub fn faction_for(strength_roll: u8, government_roll: u8) -> (f: Faction)
    requires
        is_2d6(strength_roll),
        is_2d6(government_roll),
    ensures
        f == faction_of(strength_roll, government_roll),
        f.government <= 13,
{
    let g = safer_add(government_roll, strength_roll as i8 - 7);
    let government = if g > 13 {
        13
    } else {
        g
    };
    Faction { government, strength: faction_strength(strength_roll) }
}

// ---- starport ----

pub open spec fn class_of(sum: u8) -> StarportClass {
    if sum == 3 || sum == 4 {
        StarportClass::E
    } else if sum == 5 || sum == 6 {
        StarportClass::D
    } else if sum == 7 || sum == 8 {
        StarportClass::C
    } else if sum == 9 || sum == 10 {
        StarportClass::B
    } else if sum == 11 || sum == 12 {
        StarportClass::A
    } else {
        StarportClass::X
    }
}

pub open spec fn berthing_scale(class: StarportClass) -> int {
    match class {
        StarportClass::A => 1000,
        StarportClass::B => 500,
        StarportClass::C => 100,
        StarportClass::D => 10,
        _ => 0,
    }
}

/// The starport class of a two-dice roll; anything outside the table has none.
pub fn starport_class(sum: u8) -> (c: StarportClass)
    ensures
        c == class_of(sum),
{
    match sum {
        2 => StarportClass::X,
        3 | 4 => StarportClass::E,
        5 | 6 => StarportClass::D,
        7 | 8 => StarportClass::C,
        9 | 10 => StarportClass::B,
        11 | 12 => StarportClass::A,
        _ => StarportClass::X,
    }
}

/// The berthing cost: a class-dependent scale times one six-sided die.
pub fn berthing_cost(class: StarportClass, d6: u8) -> (b: u32)
    ensures
        b == berthing_scale(class) * d6,
{
    match class {
        StarportClass::A => 1000 * d6 as u32,
        StarportClass::B => 500 * d6 as u32,
        StarportClass::C => 100 * d6 as u32,
        StarportClass::D => 10 * d6 as u32,
        StarportClass::E => 0,
        StarportClass::X => 0,
    }
}

} // verus!
