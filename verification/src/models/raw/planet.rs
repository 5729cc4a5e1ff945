//! Planets of the raw API: the records that carry no coordinates.

use crate::models::common::assignment::{CampaignId, JointOperationId};
use chrono::NaiveDateTime;
use vstd::prelude::*;

verus! {

/// Represents information about the homeworld(s) of a given race (faction).
#[derive(Debug, PartialEq, Eq)]
pub struct HomeWorld {
    /// The faction.
    pub race: i32,
    /// A list of planet index identifiers.
    pub planet_indices: Vec<i32>,
}

/// Represents an attack on a planet.
#[derive(Clone, Copy, Debug, PartialEq, Eq, Structural)]
pub struct PlanetAttack {
    /// The identifier of where the attack originates from.
    pub source: i32,
    /// The planet that is targeted by the attack.
    pub target: i32,
}

/// Represents an ongoing event on a planet.
#[derive(Debug, PartialEq, Eq)]
pub struct PlanetEvent {
    /// The unique identifier of the event.
    pub id: i32,
    /// The index of the affected planet.
    pub planet_index: i32,
    /// The identifier indicating the type of the event.
    pub event_type: i32,
    /// The faction identifier that owns the planet.
    pub race: i32,
    /// The current health of the event.
    pub health: i64,
    /// The maximum health of the event.
    pub max_health: i64,
    /// The time at which this event starts.
    pub start: NaiveDateTime,
    /// The time at which this event ends.
    pub expire: NaiveDateTime,
    /// The identifier of a related Campaign.
    pub campaign_id: CampaignId,
    /// A list of identifiers for related joint operations.
    pub joint_operations: Vec<JointOperationId>,
}

} // verus!
