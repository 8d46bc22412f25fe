use traveller::bases::{base_threshold, bases_for, tech_modifier, Base, BaseRolls};
use traveller::classify::{codes_for, zone_for, Profile, Zone};
use traveller::dice::{rolld3, rolld3dm, rolld6, rolld6dm, rollnd6, rollnd6dm, safer_add};
use traveller::subsector::{hex_occupied, Density, Subsector};
use traveller::tables::{
    berthing_cost, faction_count_modifier, faction_for, faction_strength, hydrographics_for,
    starport_class, temperature_for, temperature_modifier, Faction, FactionStrength,
    StarportClass, Temperature,
};

#[test]
fn safer_add_floors_at_zero() {
    assert_eq!(safer_add(3, -7), 0);
    assert_eq!(safer_add(3, -3), 0);
    assert_eq!(safer_add(12, -2), 10);
    assert_eq!(safer_add(200, 55), 255);
    assert_eq!(safer_add(0, -128), 0);
}

#[test]
fn dice_stay_in_range() {
    let mut threes = [false; 3];
    let mut sixes = [false; 6];
    for _ in 0..1000 {
        let a = rolld3();
        assert!(1 <= a && a <= 3);
        threes[(a - 1) as usize] = true;
        let b = rolld6();
        assert!(1 <= b && b <= 6);
        sixes[(b - 1) as usize] = true;
        let s = rollnd6(2);
        assert!(2 <= s && s <= 12);
        assert!(rolld3dm(-5) == 0);
        assert!(rolld6dm(-6) == 0);
        let m = rolld6dm(10);
        assert!(11 <= m && m <= 16);
        let n = rollnd6dm(2, -2);
        assert!(n <= 10);
    }
    assert!(threes.iter().all(|x| *x));
    assert!(sixes.iter().all(|x| *x));
    assert_eq!(rollnd6(0), 0);
}

#[test]
fn temperature_table() {
    assert_eq!(temperature_modifier(0), 0);
    assert_eq!(temperature_modifier(3), -2);
    assert_eq!(temperature_modifier(4), -1);
    assert_eq!(temperature_modifier(5), -1);
    assert_eq!(temperature_modifier(13), 2);
    assert_eq!(temperature_modifier(14), -1);
    assert_eq!(temperature_modifier(15), 2);
    assert_eq!(temperature_modifier(11), 6);
    assert_eq!(temperature_for(2), Temperature::Frozen);
    assert_eq!(temperature_for(3), Temperature::Cold);
    assert_eq!(temperature_for(9), Temperature::Temperate);
    assert_eq!(temperature_for(11), Temperature::Hot);
    assert_eq!(temperature_for(12), Temperature::Roasting);
    assert_eq!(temperature_for(18), Temperature::Roasting);
}

#[test]
fn hydrographics_table() {
    assert_eq!(hydrographics_for(0, 7, Temperature::Temperate, 12), 0);
    // size 8, atmosphere 6, temperate: 9 + 8 - 7
    assert_eq!(hydrographics_for(8, 6, Temperature::Temperate, 9), 10);
    // atmosphere 0 takes 4, roasting takes 6
    assert_eq!(hydrographics_for(8, 0, Temperature::Roasting, 12), 3);
    assert_eq!(hydrographics_for(8, 6, Temperature::Hot, 9), 8);
    assert_eq!(hydrographics_for(1, 0, Temperature::Roasting, 2), 0);
    // 12 + 10 - 7 = 15, held to 10; 10 + 8 - 7 = 11, held to 10
    assert_eq!(hydrographics_for(10, 6, Temperature::Temperate, 12), 10);
    assert_eq!(hydrographics_for(8, 6, Temperature::Temperate, 10), 10);
}

#[test]
fn faction_strength_bands_cover_every_two_dice_sum() {
    let expected = [
        FactionStrength::Obscure,
        FactionStrength::Obscure,
        FactionStrength::Fringe,
        FactionStrength::Fringe,
        FactionStrength::Minor,
        FactionStrength::Minor,
        FactionStrength::Notable,
        FactionStrength::Notable,
        FactionStrength::Significant,
        FactionStrength::Significant,
        FactionStrength::Overwhelming,
    ];
    for sum in 2u8..=12 {
        assert_eq!(faction_strength(sum), expected[(sum - 2) as usize]);
    }
    assert_eq!(faction_strength(13), FactionStrength::Obscure);
}

#[test]
fn faction_government_and_count() {
    assert_eq!(faction_for(12, 12), Faction { government: 13, strength: FactionStrength::Overwhelming });
    assert_eq!(faction_for(2, 3), Faction { government: 0, strength: FactionStrength::Obscure });
    assert_eq!(faction_for(8, 6), Faction { government: 7, strength: FactionStrength::Notable });
    assert_eq!(faction_count_modifier(0), 1);
    assert_eq!(faction_count_modifier(7), 1);
    assert_eq!(faction_count_modifier(10), -1);
    assert_eq!(faction_count_modifier(13), -1);
    assert_eq!(faction_count_modifier(5), 0);
}

#[test]
fn starport_table_and_berthing() {
    assert_eq!(starport_class(2), StarportClass::X);
    assert_eq!(starport_class(4), StarportClass::E);
    assert_eq!(starport_class(5), StarportClass::D);
    assert_eq!(starport_class(8), StarportClass::C);
    assert_eq!(starport_class(9), StarportClass::B);
    assert_eq!(starport_class(12), StarportClass::A);
    assert_eq!(starport_class(0), StarportClass::X);
    for d in 1u8..=6 {
        assert_eq!(berthing_cost(StarportClass::X, d), 0);
        assert_eq!(berthing_cost(StarportClass::E, d), 0);
        assert_eq!(berthing_cost(StarportClass::A, d), 1000 * d as u32);
    }
    assert_eq!(berthing_cost(StarportClass::B, 2), 1000);
    assert_eq!(berthing_cost(StarportClass::C, 6), 600);
    assert_eq!(berthing_cost(StarportClass::D, 5), 50);
    assert_eq!(StarportClass::A.letter(), 'A');
    assert_eq!(StarportClass::X.letter(), 'X');
}

#[test]
fn class_x_never_has_bases() {
    let all = BaseRolls { naval: 12, scout: 12, research: 12, tas: 12, consulate: 12, pirate: 12 };
    let b = bases_for(StarportClass::X, &all);
    for base in [Base::Naval, Base::Scout, Base::Research, Base::Tas, Base::Consulate, Base::Pirate] {
        assert!(!b.contains(base));
        assert_eq!(base_threshold(StarportClass::X, base), None);
    }
    let e = bases_for(StarportClass::E, &all);
    assert!(e.pirate && !e.scout && !e.naval);
}

#[test]
fn base_thresholds_are_met_or_exceeded() {
    let rolls = BaseRolls { naval: 7, scout: 7, research: 10, tas: 6, consulate: 8, pirate: 11 };
    let b = bases_for(StarportClass::B, &rolls);
    assert!(!b.naval && !b.scout && b.research && b.tas && b.consulate && !b.pirate);
    let d = bases_for(StarportClass::D, &rolls);
    assert!(d.scout && !d.pirate && !d.research);
    assert_eq!(base_threshold(StarportClass::C, Base::Naval), None);
    assert_eq!(base_threshold(StarportClass::A, Base::Tas), Some(4));
}

#[test]
fn tech_modifier_terms() {
    assert_eq!(tech_modifier(StarportClass::A, 0, 0, 10, 12, 7), 6 + 2 + 1 + 2 + 4 + 2);
    assert_eq!(tech_modifier(StarportClass::X, 8, 6, 5, 6, 13), -6);
    assert_eq!(tech_modifier(StarportClass::D, 4, 15, 9, 9, 5), 0 + 1 + 1 + 1 + 1 + 1);
}

fn profile(size: u8, atmosphere: u8, hydrographics: u8, population: u8, government: u8, law: u8, tech: u8) -> Profile {
    Profile { size, atmosphere, hydrographics, population, government, law, tech }
}

#[test]
fn zone_rules() {
    assert_eq!(zone_for(&profile(5, 6, 5, 6, 4, 4, 8)), Zone::Green);
    assert_eq!(zone_for(&profile(5, 10, 5, 6, 4, 4, 8)), Zone::Amber);
    assert_eq!(zone_for(&profile(5, 6, 5, 6, 10, 4, 8)), Zone::Amber);
    assert_eq!(zone_for(&profile(5, 6, 5, 6, 4, 0, 8)), Zone::Amber);
    assert_eq!(zone_for(&profile(5, 6, 5, 6, 4, 9, 8)), Zone::Amber);
    assert_eq!(Zone::default(), Zone::Unclassified);
    assert_eq!(Zone::Amber.symbol(), 'A');
    assert_eq!(Zone::Green.symbol(), ' ');
}

#[test]
fn trade_code_bounds() {
    let garden = codes_for(&profile(6, 6, 6, 6, 4, 4, 8));
    assert!(garden.agricultural && garden.garden && garden.rich && garden.non_industrial);
    assert!(!garden.high_pop && !garden.low_tech && !garden.high_tech);
    let water = codes_for(&profile(9, 10, 10, 9, 4, 4, 12));
    assert!(water.water_world && water.fluid_oceans && water.high_pop && water.high_tech);
    assert!(!water.industrial);
    let ice = codes_for(&profile(3, 1, 2, 9, 4, 4, 5));
    assert!(ice.ice_capped && ice.industrial && ice.low_tech && ice.non_agricultural);
    let low = codes_for(&profile(3, 3, 0, 2, 4, 4, 7));
    assert!(low.low_pop && low.desert && low.poor);
    assert!(!low.non_agricultural);
    // the same vector gives the same codes
    assert_eq!(codes_for(&profile(3, 3, 0, 2, 4, 4, 7)), low);
}

#[test]
fn subsector_layout() {
    assert!(hex_occupied(Density::Spiral, 4));
    assert!(!hex_occupied(Density::Spiral, 3));
    assert!(!hex_occupied(Density::Rift, 5));
    assert!(hex_occupied(Density::Rift, 6));
    assert!(hex_occupied(Density::Dense, 3));
    assert!(hex_occupied(Density::Sparse, 5));
    let s = Subsector::generate(Density::Dense);
    assert_eq!(s.grid.len(), 8);
    for col in &s.grid {
        assert_eq!(col.len(), 10);
    }
}
