//! Planets of the v1 API: the records that carry no coordinates, and the
//! endpoints that planets are asked from.

use crate::decimal::{int_chars, with_number};
use crate::models::common::assignment::{CampaignId, JointOperationId};
use crate::HellApi;
use chrono::NaiveDateTime;
use vstd::prelude::*;

verus! {

/// Represents an ongoing event on a planet.
#[derive(Debug, PartialEq, Eq)]
pub struct Event {
    /// The unique identifier of the event.
    pub id: i32,
    /// The identifier indicating the type of the event.
    pub event_type: i32,
    /// The faction identifier that owns the planet.
    pub faction: String,
    /// The current health of the event.
    pub health: i64,
    /// The maximum health of the event.
    pub max_health: i64,
    /// The time at which this event starts.
    pub start: NaiveDateTime,
    /// The time at which this event ends.
    pub end: NaiveDateTime,
    /// The identifier of a related Campaign.
    pub campaign_id: CampaignId,
    /// A list of identifiers for related joint operations.
    pub joint_operations: Vec<JointOperationId>,
}

/// Represents information about a biome of a Planet.
#[derive(Debug, PartialEq, Eq)]
pub struct Biome {
    /// The name of the biome.
    pub name: String,
    /// A short human-readable description of the biome.
    pub description: String,
}

/// Represents an environmental hazard that can be present on a Planet.
#[derive(Debug, PartialEq, Eq)]
pub struct Hazard {
    /// The name of the environmental hazard.
    pub name: String,
    /// The description of the environmental hazard.
    pub description: String,
}

impl HellApi {
    /// The endpoint of all available planets: `/api/v1/planets`.
    pub fn planets_endpoint() -> (r: &'static str)
        ensures
            r@ == "/api/v1/planets"@,
    {
        "/api/v1/planets"
    }

    /// The endpoint of the planet with identifier `id`:
    /// `/api/v1/planets/{id}`.
    pub fn planet_endpoint(id: i32) -> (r: String)
        ensures
            r@ == "/api/v1/planets/"@ + int_chars(id as int),
    {
        with_number("/api/v1/planets/", id as i64)
    }

    /// The endpoint of all planets with an active event:
    /// `/api/v1/planet-events`.
    pub fn planet_events_endpoint() -> (r: &'static str)
        ensures
            r@ == "/api/v1/planet-events"@,
    {
        "/api/v1/planet-events"
    }
}

} // verus!
