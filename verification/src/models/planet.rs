//! Planets as the client hands them on: the records that carry no
//! coordinates.

use vstd::prelude::*;

verus! {

/// Represents an attack on a planet.
#[derive(Clone, Copy, Debug, PartialEq, Eq, Structural)]
pub struct PlanetAttack {
    /// The identifier of where the attack originates from.
    pub source: i32,
    /// The planet that is targeted by the attack.
    pub target: i32,
}

/// Represents information about the homeworld(s) of a given race (faction).
#[derive(Debug, PartialEq, Eq)]
pub struct HomeWorld {
    /// The faction.
    pub race: i32,
    /// The planets that are its home.
    pub planet_indices: Vec<i32>,
}

/// Represents information about a biome of a Planet.
#[derive(Debug, PartialEq, Eq)]
pub struct Biome {
    /// The name of the biome.
    pub name: String,
    /// A short human-readable description of the biome.
    pub description: String,
}

/// Represents an environmental hazard that can be present on a Planet.
#[derive(Debug, PartialEq, Eq)]
pub struct Hazard {
    /// The name of the environmental hazard.
    pub name: String,
    /// The description of the environmental hazard.
    pub description: String,
}

} // verus!
