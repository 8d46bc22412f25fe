//! A subsector: an eight by ten grid of hexes, each holding a world or not.

use crate::dice::rolld6;
use crate::world::{Rolls, World};
use vstd::prelude::*;

verus! {

pub const COLUMNS: usize = 8;

pub const ROWS: usize = 10;

/// How crowded the region of the galaxy is.
#[derive(Clone, Copy, Debug, PartialEq, Eq, Structural)]
pub enum Density {
    Rift,
    Sparse,
    Spiral,
    Dense,
}

pub open spec fn density_modifier_of(d: Density) -> int {
    match d {
        Density::Rift => -2,
        Density::Sparse => -1,
        Density::Spiral => 0,
        Density::Dense => 1,
    }
}

/// The modifier that a region's density puts on the roll for each hex.
pub fn density_modifier(d: Density) -> (dm: i8)
    ensures
        dm == density_modifier_of(d),
{
    match d {
        Density::Rift => -2,
        Density::Sparse => -1,
        Density::Spiral => 0,
        Density::Dense => 1,
    }
}

/// A hex holds a world when one six-sided die plus the density modifier
/// reaches four.
pub fn hex_occupied(d: Density, d6: u8) -> (r: bool)
    ensures
        r == (d6 + density_modifier_of(d) >= 4),
{
    d6 as i16 + density_modifier(d) as i16 >= 4
}

#[derive(Clone, Debug)]
pub struct Subsector {
    pub grid: Vec<Vec<Option<World>>>,
}

impl Subsector {
    /// The grid is eight columns of ten hexes, and each world in it came out
    /// of the derivation chain.
    pub open spec fn wf(&self) -> bool {
        &&& self.grid@.len() == COLUMNS
        &&& forall|c: int|
            0 <= c < COLUMNS ==> (#[trigger] self.grid@[c])@.len() == ROWS
        &&& forall|c: int, h: int|
            0 <= c < COLUMNS && 0 <= h < ROWS && (#[trigger] self.grid@[c]@[h]).is_some()
                ==> self.grid@[c]@[h].unwrap().is_derivable()
    }

    /// Each hex holds a world exactly when its presence draw plus the density
    /// modifier reaches four, and that world is what the derivation chain
    /// makes of the hex's rolls.
    pub open spec fn built_from(
        &self,
        density: Density,
        presence: Seq<Vec<u8>>,
        worlds: Seq<Vec<Rolls>>,
    ) -> bool {
        &&& self.wf()
        &&& forall|c: int, h: int|
            0 <= c < COLUMNS && 0 <= h < ROWS ==> ((#[trigger] self.grid@[c]@[h]).is_some() == (
            presence[c]@[h] + density_modifier_of(density) >= 4))
        &&& forall|c: int, h: int|
            0 <= c < COLUMNS && 0 <= h < ROWS && (#[trigger] self.grid@[c]@[h]).is_some()
                ==> self.grid@[c]@[h].unwrap().derived_from(worlds[c]@[h])
    }

    /// Lays out a subsector from one six-sided presence draw and one set of
    /// world rolls per hex, both given column by column.
    pub fn from_rolls(density: Density, presence: &Vec<Vec<u8>>, worlds: &Vec<Vec<Rolls>>) -> (s:
        Subsector)
        requires
            grid_rolls_wf(presence@, worlds@),
        ensures
            s.built_from(density, presence@, worlds@),
    {
        let mut grid: Vec<Vec<Option<World>>> = Vec::new();
        let mut c: usize = 0;
        while c < COLUMNS
            invariant
                grid_rolls_wf(presence@, worlds@),
                c <= COLUMNS,
                grid@.len() == c,
                forall|k: int| 0 <= k < c ==> (#[trigger] grid@[k])@.len() == ROWS,
                forall|k: int, h: int|
                    0 <= k < c && 0 <= h < ROWS ==> ((#[trigger] grid@[k]@[h]).is_some() == (
                    presence@[k]@[h] + density_modifier_of(density) >= 4)),
                forall|k: int, h: int|
                    0 <= k < c && 0 <= h < ROWS && (#[trigger] grid@[k]@[h]).is_some()
                        ==> grid@[k]@[h].unwrap().derived_from(worlds@[k]@[h])
                        && grid@[k]@[h].unwrap().is_derivable(),
            decreases COLUMNS - c,
        {
            let col = Self::column_from(density, &presence[c], &worlds[c]);
            grid.push(col);
            c = c + 1;
        }
        Subsector { grid }
    }

    fn column_from(density: Density, presence: &Vec<u8>, worlds: &Vec<Rolls>) -> (col: Vec<
        Option<World>,
    >)
        requires
            presence@.len() == ROWS,
            worlds@.len() == ROWS,
            forall|h: int| 0 <= h < ROWS ==> 1 <= #[trigger] presence@[h] <= 6,
            forall|h: int| 0 <= h < ROWS ==> (#[trigger] worlds@[h]).wf(),
        ensures
            col@.len() == ROWS,
            forall|h: int|
                0 <= h < ROWS ==> ((#[trigger] col@[h]).is_some() == (presence@[h]
                    + density_modifier_of(density) >= 4)),
            forall|h: int|
                0 <= h < ROWS && (#[trigger] col@[h]).is_some() ==> col@[h].unwrap().derived_from(
                    worlds@[h],
                ) && col@[h].unwrap().is_derivable(),
    {
        let mut col: Vec<Option<World>> = Vec::new();
        let mut h: usize = 0;
        while h < ROWS
            invariant
                presence@.len() == ROWS,
                worlds@.len() == ROWS,
                forall|k: int| 0 <= k < ROWS ==> (#[trigger] worlds@[k]).wf(),
                h <= ROWS,
                col@.len() == h,
                forall|k: int|
                    0 <= k < h ==> ((#[trigger] col@[k]).is_some() == (presence@[k]
                        + density_modifier_of(density) >= 4)),
                forall|k: int|
                    0 <= k < h && (#[trigger] col@[k]).is_some() ==> col@[k].unwrap().derived_from(
                        worlds@[k],
                    ) && col@[k].unwrap().is_derivable(),
            decreases ROWS - h,
        {
            if hex_occupied(density, presence[h]) {
                let w = World::derive(&worlds[h]);
                assert(worlds@[h as int].wf() && w.derived_from(worlds@[h as int]));
                col.push(Some(w));
            } else {
                col.push(None);
            }
            h = h + 1;
        }
        col
    }

    /// Fills every hex of a new subsector: one presence draw per hex, and the
    /// rolls of a world for each hex that the draw fills.
    pub fn generate(density: Density) -> (s: Subsector)
        ensures
            exists|presence: Seq<Vec<u8>>, worlds: Seq<Vec<Rolls>>|
                grid_rolls_wf(presence, worlds) && #[trigger] s.built_from(
                    density,
                    presence,
                    worlds,
                ),
    {
        let mut presence: Vec<Vec<u8>> = Vec::new();
        let mut worlds: Vec<Vec<Rolls>> = Vec::new();
        let mut c: usize = 0;
        while c < COLUMNS
            invariant
                c <= COLUMNS,
                presence@.len() == c,
                worlds@.len() == c,
                forall|k: int| 0 <= k < c ==> (#[trigger] presence@[k])@.len() == ROWS,
                forall|k: int| 0 <= k < c ==> (#[trigger] worlds@[k])@.len() == ROWS,
                forall|k: int, h: int|
                    0 <= k < c && 0 <= h < ROWS ==> 1 <= #[trigger] presence@[k]@[h] <= 6,
                forall|k: int, h: int|
                    0 <= k < c && 0 <= h < ROWS ==> (#[trigger] worlds@[k]@[h]).wf(),
            decreases COLUMNS - c,
        {
            let mut draws: Vec<u8> = Vec::new();
            let mut rolls: Vec<Rolls> = Vec::new();
            let mut h: usize = 0;
            while h < ROWS
                invariant
                    h <= ROWS,
                    draws@.len() == h,
                    rolls@.len() == h,
                    forall|k: int| 0 <= k < h ==> 1 <= #[trigger] draws@[k] <= 6,
                    forall|k: int| 0 <= k < h ==> (#[trigger] rolls@[k]).wf(),
                decreases ROWS - h,
            {
                draws.push(rolld6());
                rolls.push(Rolls::roll());
                h = h + 1;
            }
            presence.push(draws);
            worlds.push(rolls);
            c = c + 1;
        }
        let s = Self::from_rolls(density, &presence, &worlds);
        assert(grid_rolls_wf(presence@, worlds@) && s.built_from(density, presence@, worlds@));
        s
    }
}

/// One presence draw (a six-sided die) and one well-formed set of world rolls
/// for each hex of the grid.
pub open spec fn grid_rolls_wf(presence: Seq<Vec<u8>>, worlds: Seq<Vec<Rolls>>) -> bool {
    &&& presence.len() == COLUMNS
    &&& worlds.len() == COLUMNS
    &&& forall|c: int| 0 <= c < COLUMNS ==> (#[trigger] presence[c])@.len() == ROWS
    &&& forall|c: int| 0 <= c < COLUMNS ==> (#[trigger] worlds[c])@.len() == ROWS
    &&& forall|c: int, h: int|
        0 <= c < COLUMNS && 0 <= h < ROWS ==> 1 <= #[trigger] presence[c]@[h] <= 6
    &&& forall|c: int, h: int| 0 <= c < COLUMNS && 0 <= h < ROWS ==> (#[trigger] worlds[c]@[h]).wf()
}

} // verus!
