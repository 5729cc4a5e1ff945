//! The war of the raw API: its identifier, its summary, and the endpoints
//! that are asked about it.

use crate::decimal::{int_chars, with_number};
use crate::models::raw::stats::{GalaxyStats, PlanetStats};
use crate::HellApi;
use vstd::prelude::*;

verus! {

/// Type of the ID returned from the WarID endpoint.
#[derive(Clone, Copy, Debug, PartialEq, Eq, Structural)]
pub struct WarId {
    /// The number of the war season.
    pub id: i32,
}

impl From<i32> for WarId {
    fn from(value: i32) -> (r: WarId) {
        WarId { id: value }
    }
}

impl vstd::std_specs::convert::FromSpecImpl<i32> for WarId {
    open spec fn obeys_from_spec() -> bool {
        true
    }

    open spec fn from_spec(value: i32) -> WarId {
        WarId { id: value }
    }
}

/// Represents general statistics about the galaxy and specific planets.
#[derive(Debug, PartialEq, Eq)]
pub struct WarSummary {
    /// Galaxy wide statistics aggregated from all planets.
    pub galaxy_stats: GalaxyStats,
    /// Statistics for specific planets.
    pub planet_stats: Vec<PlanetStats>,
}

/// Represents a joint operation.
#[derive(Clone, Copy, Debug, PartialEq, Eq, Structural)]
pub struct JointOperation {
    /// The identifier of the joint operation.
    pub id: i32,
    /// The planet it takes place on.
    pub planet_index: i32,
    /// The node of its headquarters.
    pub hq_node_index: i32,
}

impl HellApi {
    /// The endpoint of the current war id: `/raw/api/WarSeason/current/WarID`.
    pub fn war_id_endpoint() -> (r: &'static str)
        ensures
            r@ == "/raw/api/WarSeason/current/WarID"@,
    {
        "/raw/api/WarSeason/current/WarID"
    }

    /// The endpoint of the status of a war:
    /// `/raw/api/WarSeason/{war_id}/Status`.
    pub fn war_status_endpoint(war_id: &WarId) -> (r: String)
        ensures
            r@ == "/raw/api/WarSeason/"@ + int_chars(war_id.id as int) + "/Status"@,
    {
        let mut path = with_number("/raw/api/WarSeason/", war_id.id as i64);
        path.append("/Status");
        path
    }

    /// The endpoint of the information on a war:
    /// `/raw/api/WarSeason/{war_id}/WarInfo`.
    pub fn war_info_endpoint(war_id: &WarId) -> (r: String)
        ensures
            r@ == "/raw/api/WarSeason/"@ + int_chars(war_id.id as int) + "/WarInfo"@,
    {
        let mut path = with_number("/raw/api/WarSeason/", war_id.id as i64);
        path.append("/WarInfo");
        path
    }

    /// The endpoint of the summary of a war:
    /// `/raw/api/Stats/war/{war_id}/summary`.
    pub fn war_summary_endpoint(war_id: &WarId) -> (r: String)
        ensures
            r@ == "/raw/api/Stats/war/"@ + int_chars(war_id.id as int) + "/summary"@,
    {
        let mut path = with_number("/raw/api/Stats/war/", war_id.id as i64);
        path.append("/summary");
        path
    }
}

} // verus!
