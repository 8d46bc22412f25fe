//! Procedural generation of star systems: a chain of dice rolls, each modified
//! by what was derived before it, ending in trade codes and a travel zone.

pub mod dice;
pub mod tables;
pub mod bases;
pub mod classify;
pub mod world;
pub mod subsector;
pub mod laws;
