//! The war as the client hands it on: its identifier and its summary.

use crate::models::stats::{GalaxyStats, PlanetStats};
use vstd::prelude::*;

verus! {

/// Type of the ID returned from the WarID endpoint.
#[derive(Clone, Copy, Debug, PartialEq, Eq, Structural)]
pub struct WarId {
    /// The number of the war season.
    pub id: i32,
}

/// Represents general statistics about the galaxy and specific planets.
#[derive(Debug, PartialEq, Eq)]
pub struct WarSummary {
    /// Galaxy wide statistics aggregated from all planets.
    pub galaxy_stats: GalaxyStats,
    /// Statistics for specific planets.
    pub planet_stats: PlanetStats,
}

} // verus!
