//! Statistics as the client hands them on.

use core::time::Duration;
use vstd::prelude::*;

verus! {

/// Represents base statistics.
#[derive(Debug, PartialEq, Eq)]
pub struct BaseStats {
    /// The amount of missions won.
    pub missions_won: u64,
    /// The amount of missions lost.
    pub missions_lost: u64,
    /// The amount of time spent in missions.
    pub mission_time: Duration,
    /// The amount of bugs killed since the start of the season.
    pub bug_kills: u64,
    /// The amount of automatons killed since the start of the season.
    pub automaton_kills: u64,
    /// The amount of illuminate killed since the start of the season.
    pub illumintate_kills: u64,
    /// The amount of bullets fired.
    pub bullets_fired: u64,
    /// The amount of bullets hit.
    pub bullets_hit: u64,
    /// The amount of time spent playing (including off-planet).
    pub time_played: Duration,
    /// The amount of casualties on the side of humanity.
    pub deaths: u64,
    /// The amount of revives.
    pub revives: u64,
    /// The amount of friendly fire casualties.
    pub friendlies: u64,
    /// A percentage indicating how many started missions ended in success.
    pub mission_success_rate: u64,
    /// A percentage indicating the average accuracy of Helldivers.
    pub accuracy: u64,
}

/// Represents galaxy wide statistics.
#[derive(Debug, PartialEq, Eq)]
pub struct GalaxyStats {
    /// The BaseStats for the galaxy.
    pub stats: BaseStats,
}

/// Represents planet specific statistics.
#[derive(Debug, PartialEq, Eq)]
pub struct PlanetStats {
    /// The planet for which these stats are.
    pub planet_index: i32,
    /// The BaseStats for this planet.
    pub stats: BaseStats,
}

/// Represent a statistics snapshot.
#[derive(Debug, PartialEq, Eq)]
pub struct Statistics {
    /// The player count at the time of the snapshot.
    pub player_count: u64,
    /// The BaseStats for this snapshot.
    pub stats: BaseStats,
}

} // verus!
