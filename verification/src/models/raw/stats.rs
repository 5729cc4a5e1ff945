//! Statistics of the raw API.

use core::time::Duration;
use vstd::prelude::*;

verus! {

/// Galaxy wide statistics aggregated from all planets.
#[derive(Debug, PartialEq, Eq)]
pub struct GalaxyStats {
    /// The amount of missions won.
    pub missions_won: u64,
    /// The amount of missions lost.
    pub missions_lost: u64,
    /// The amount of time spent in missions.
    pub mission_time: Duration,
    /// The amount of bugs killed since the start of the season.
    pub bug_kills: u64,
    /// The amount of automatons killed since the start of the season.
    pub automaton_kills: u64,
    /// The amount of illuminate killed since the start of the season.
    pub illumintate_kills: u64,
    /// The amount of bullets fired.
    pub bullets_fired: u64,
    /// The amount of bullets hit.
    pub bullets_hit: u64,
    /// The amount of time spent playing (including off-planet).
    pub time_played: Duration,
    /// The amount of casualties on the side of humanity.
    pub deaths: u64,
    /// The amount of revives.
    pub revives: u64,
    /// The amount of friendly fire casualties.
    pub friendlies: u64,
    /// A percentage 0-100 indicating how many started missions ended in
    /// success.
    pub mission_success_rate: u64,
    /// A percentage 0-100 indicating the average accuracy of Helldivers.
    pub accuracy: u64,
}

/// Represents planet specific statistics.
#[derive(Debug, PartialEq, Eq)]
pub struct PlanetStats {
    /// The index for which planet these stats are.
    pub planet_index: i32,
    /// The amount of missions won.
    pub missions_won: u64,
    /// The amount of missions lost.
    pub missions_lost: u64,
    /// The amount of time spent in missions.
    pub mission_time: Duration,
    /// The amount of bugs killed since the start of the season.
    pub bug_kills: u64,
    /// The amount of automatons killed since the start of the season.
    pub automaton_kills: u64,
    /// The amount of illuminate killed since the start of the season.
    pub illumintate_kills: u64,
    /// The amount of bullets fired.
    pub bullets_fired: u64,
    /// The amount of bullets hit.
    pub bullets_hit: u64,
    /// The amount of time spent playing (including off-planet).
    pub time_played: Duration,
    /// The amount of casualties on the side of humanity.
    pub deaths: u64,
    /// The amount of revives.
    pub revives: u64,
    /// The amount of friendly fire casualties.
    pub friendlies: u64,
    /// A percentage 0-100 indicating how many started missions ended in
    /// success.
    pub mission_success_rate: u64,
    /// A percentage 0-100 indicating the average accuracy of Helldivers.
    pub accuracy: u64,
}

} // verus!
