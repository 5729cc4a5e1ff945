//! Statistics of the v1 API.

use core::time::Duration;
use vstd::prelude::*;

verus! {

/// Represents base statistics.
#[derive(Debug, PartialEq, Eq)]
pub struct Statistics {
    /// The amount of missions won.
    pub missions_won: u64,
    /// The amount of missions lost.
    pub missions_lost: u64,
    /// The amount of time spent in missions.
    pub mission_time: Duration,
    /// The amount of bugs killed since the start of the season.
    pub bug_kills: u64,
    /// The amount of automatons killed since the start of the season.
    pub automaton_kills: u64,
    /// The amount of illuminate killed since the start of the season.
    pub illumintate_kills: u64,
    /// The amount of bullets fired.
    pub bullets_fired: u64,
    /// The amount of bullets hit.
    pub bullets_hit: u64,
    /// The amount of time spent playing (including off-planet).
    pub time_played: Duration,
    /// The amount of casualties on the side of humanity.
    pub deaths: u64,
    /// The amount of revives.
    pub revives: u64,
    /// The amount of friendly fire casualties.
    pub friendlies: u64,
    /// A percentage 0-100 indicating how many started missions ended in
    /// success.
    pub mission_success_rate: u8,
    /// A percentage 0-100 indicating the average accuracy of Helldivers.
    pub accuracy: u8,
    /// The player count at the time of the snapshot.
    pub player_count: u64,
}

} // verus!
