//! Campaigns as the client hands them on.

use vstd::prelude::*;

verus! {

/// Represents information about an ongoing campaign.
#[derive(Clone, Copy, Debug, PartialEq, Eq, Structural)]
pub struct Campaign {
    /// The identifier of this campaign.
    pub id: i32,
    /// The index of the referred planet.
    pub planet_index: i32,
    /// The indicator for the type of campaign.
    pub campaign_type: i32,
    /// The amount of campaigns the planet has seen.
    pub count: i32,
}

/// The type of a Campaign identifier.
pub type CampaignId = i32;

} // verus!
