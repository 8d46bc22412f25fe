//! Properties of every generated world, proved from the derivation contracts.

use crate::bases::{base_present, Base, BaseRolls};
use crate::classify::{codes_of, zone_of, Zone};
use crate::tables::{
    is_2d6, strength_band, FactionStrength, StarportClass,
};
use crate::subsector::{density_modifier_of, Density, Subsector, COLUMNS, ROWS};
use crate::world::{Rolls, World};
use vstd::prelude::*;

verus! {

/// Government never exceeds 13 nor law 9, for the world and for each of its
/// at most four factions; tech is never negative; and hydrographics stays
/// within its scale of 0 to 10.
pub proof fn lemma_attribute_bounds(w: World)
    requires
        w.is_derivable(),
    ensures
        w.government <= 13,
        w.law <= 9,
        w.factions@.len() <= 4,
        forall|i: int| 0 <= i < w.factions@.len() ==> (#[trigger] w.factions@[i]).government <= 13,
        w.tech >= 0,
        w.hydrographics <= 10,
{
    let r = choose|r: Rolls| r.wf() && #[trigger] w.derived_from(r);
    assert(w.size <= 10);
}

/// A world of size zero holds no water.
pub proof fn lemma_size_zero_is_dry(w: World)
    requires
        w.is_derivable(),
        w.size == 0,
    ensures
        w.hydrographics == 0,
{
    let r = choose|r: Rolls| r.wf() && #[trigger] w.derived_from(r);
}

/// Generation only ever rates a world Green or Amber, never Red or
/// Unclassified.
pub proof fn lemma_zone_is_green_or_amber(w: World)
    requires
        w.is_derivable(),
    ensures
        w.zone == Zone::Green || w.zone == Zone::Amber,
        w.zone != Zone::Red,
        w.zone != Zone::Unclassified,
{
    let r = choose|r: Rolls| r.wf() && #[trigger] w.derived_from(r);
}

/// Classification reads nothing but the attribute vector: two generated worlds
/// with the same vector get the same trade codes and the same zone.
pub proof fn lemma_classification_depends_only_on_profile(a: World, b: World)
    requires
        a.is_derivable(),
        b.is_derivable(),
        a.profile_of() == b.profile_of(),
    ensures
        a.codes == b.codes,
        a.zone == b.zone,
        a.codes == codes_of(a.profile_of()),
        a.zone == zone_of(a.profile_of()),
{
    let ra = choose|r: Rolls| r.wf() && #[trigger] a.derived_from(r);
    let rb = choose|r: Rolls| r.wf() && #[trigger] b.derived_from(r);
}

/// Every two-dice sum falls in one of the six rows of the strength table, so
/// the fallback to Obscure is never what decides.
pub proof fn lemma_strength_rows_cover_2d6(sum: u8)
    requires
        is_2d6(sum),
    ensures
        (strength_band(sum) == FactionStrength::Obscure) == (2 <= sum <= 3),
        (strength_band(sum) == FactionStrength::Fringe) == (4 <= sum <= 5),
        (strength_band(sum) == FactionStrength::Minor) == (6 <= sum <= 7),
        (strength_band(sum) == FactionStrength::Notable) == (8 <= sum <= 9),
        (strength_band(sum) == FactionStrength::Significant) == (10 <= sum <= 11),
        (strength_band(sum) == FactionStrength::Overwhelming) == (sum == 12),
{
}

/// A class X starport tests for no facility, whatever the rolls.
pub proof fn lemma_class_x_tests_no_base(rolls: BaseRolls)
    ensures
        forall|b: Base| !(#[trigger] base_present(StarportClass::X, b, rolls)),
{
    assert forall|b: Base| !(#[trigger] base_present(StarportClass::X, b, rolls)) by {
        match b {
            Base::Naval => {},
            Base::Scout => {},
            Base::Research => {},
            Base::Tas => {},
            Base::Consulate => {},
            Base::Pirate => {},
        }
    }
}

/// A generated world with a class X starport has no bases at all.
pub proof fn lemma_class_x_world_has_no_bases(w: World)
    requires
        w.is_derivable(),
        w.starport.class == StarportClass::X,
    ensures
        w.bases.is_empty(),
{
    let r = choose|r: Rolls| r.wf() && #[trigger] w.derived_from(r);
    lemma_class_x_tests_no_base(r.bases);
    assert forall|b: Base| !(#[trigger] w.bases.has(b)) by {
        assert(!base_present(StarportClass::X, b, r.bases));
    }
}

/// Berthing costs nothing at class X and E starports, and a multiple of 1000
/// between 1000 and 6000 at class A.
pub proof fn lemma_berthing_cost(w: World)
    requires
        w.is_derivable(),
    ensures
        (w.starport.class == StarportClass::X || w.starport.class == StarportClass::E)
            ==> w.starport.berthing == 0,
        w.starport.class == StarportClass::A ==> w.starport.berthing % 1000 == 0 && 1000
            <= w.starport.berthing <= 6000,
{
    let r = choose|r: Rolls| r.wf() && #[trigger] w.derived_from(r);
}

/// On the same draws, a denser region fills every hex that a sparser one
/// fills (Rift, Sparse, Spiral, Dense, from sparsest to densest).
pub proof fn lemma_denser_fills_more(
    sparse: Density,
    dense: Density,
    presence: Seq<Vec<u8>>,
    worlds: Seq<Vec<Rolls>>,
    a: Subsector,
    b: Subsector,
)
    requires
        density_modifier_of(sparse) <= density_modifier_of(dense),
        a.built_from(sparse, presence, worlds),
        b.built_from(dense, presence, worlds),
    ensures
        forall|c: int, h: int|
            0 <= c < COLUMNS && 0 <= h < ROWS && (#[trigger] a.grid@[c]@[h]).is_some()
                ==> b.grid@[c]@[h].is_some(),
{
    assert forall|c: int, h: int|
        0 <= c < COLUMNS && 0 <= h < ROWS && (#[trigger] a.grid@[c]@[h]).is_some() implies b.grid@[
        c]@[h].is_some() by {
        assert(b.grid@[c]@[h].is_some() == (presence[c]@[h] + density_modifier_of(dense) >= 4));
    }
}

} // verus!
