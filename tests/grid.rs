use traveller::bases::BaseRolls;
use traveller::subsector::{Density, Subsector};
use traveller::world::{FactionRolls, Rolls, World};

fn rolls_with_size(size: u8) -> Rolls {
    Rolls {
        size,
        atmosphere: 7,
        temperature: 7,
        hydrographics: 7,
        population: 7,
        government: 7,
        faction_count: 1,
        factions: vec![FactionRolls { strength: 7, government: 7 }; 4],
        law: 7,
        starport: 7,
        berthing: 1,
        bases: BaseRolls { naval: 7, scout: 7, research: 7, tas: 7, consulate: 7, pirate: 7 },
        tech: 1,
    }
}

/// Column `c`, hex `h` draws `(c + h) % 6 + 1`; hex rolls give size `(c + h) % 11`.
fn grid_rolls() -> (Vec<Vec<u8>>, Vec<Vec<Rolls>>) {
    let mut presence = Vec::new();
    let mut worlds = Vec::new();
    for c in 0..8u8 {
        let mut col = Vec::new();
        let mut rolls = Vec::new();
        for h in 0..10u8 {
            col.push((c + h) % 6 + 1);
            rolls.push(rolls_with_size((c + h) % 11 + 2));
        }
        presence.push(col);
        worlds.push(rolls);
    }
    (presence, worlds)
}

#[test]
fn hexes_follow_their_presence_draws() {
    let (presence, worlds) = grid_rolls();
    for (density, dm) in [
        (Density::Rift, -2i16),
        (Density::Sparse, -1),
        (Density::Spiral, 0),
        (Density::Dense, 1),
    ] {
        let s = Subsector::from_rolls(density, &presence, &worlds);
        assert_eq!(s.grid.len(), 8);
        for c in 0..8 {
            assert_eq!(s.grid[c].len(), 10);
            for h in 0..10 {
                let filled = presence[c][h] as i16 + dm >= 4;
                assert_eq!(s.grid[c][h].is_some(), filled);
                if let Some(w) = &s.grid[c][h] {
                    assert_eq!(w.size, World::derive(&worlds[c][h]).size);
                    assert_eq!(w.size as usize, (c + h) % 11);
                }
            }
        }
    }
}

#[test]
fn rift_fills_only_sixes_and_dense_fills_from_three() {
    let (presence, worlds) = grid_rolls();
    let rift = Subsector::from_rolls(Density::Rift, &presence, &worlds);
    let dense = Subsector::from_rolls(Density::Dense, &presence, &worlds);
    // column 0 draws 1, 2, 3, 4, 5, 6, 1, 2, 3, 4
    let rift_col: Vec<bool> = rift.grid[0].iter().map(|x| x.is_some()).collect();
    assert_eq!(rift_col, vec![false, false, false, false, false, true, false, false, false, false]);
    let dense_col: Vec<bool> = dense.grid[0].iter().map(|x| x.is_some()).collect();
    assert_eq!(dense_col, vec![false, false, true, true, true, true, false, false, true, true]);
}

#[test]
fn denser_region_fills_every_hex_a_sparser_one_fills() {
    let (presence, worlds) = grid_rolls();
    let order = [Density::Rift, Density::Sparse, Density::Spiral, Density::Dense];
    for i in 0..order.len() {
        for j in i..order.len() {
            let a = Subsector::from_rolls(order[i], &presence, &worlds);
            let b = Subsector::from_rolls(order[j], &presence, &worlds);
            for c in 0..8 {
                for h in 0..10 {
                    if a.grid[c][h].is_some() {
                        assert!(b.grid[c][h].is_some());
                    }
                }
            }
        }
    }
}

#[test]
fn generated_subsector_has_the_full_grid() {
    let s = Subsector::generate(Density::Spiral);
    assert_eq!(s.grid.len(), 8);
    for col in &s.grid {
        assert_eq!(col.len(), 10);
        for hex in col {
            if let Some(w) = hex {
                assert!(w.government <= 13 && w.law <= 9);
            }
        }
    }
}
