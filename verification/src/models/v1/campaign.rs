//! Campaigns of the v1 API.

use crate::decimal::{int_chars, with_number};
use crate::HellApi;
use vstd::prelude::*;

verus! {

impl HellApi {
    /// The endpoint of all available campaigns: `/api/v1/campaigns`.
    pub fn campaigns_endpoint() -> (r: &'static str)
        ensures
            r@ == "/api/v1/campaigns"@,
    {
        "/api/v1/campaigns"
    }

    /// The endpoint of the campaign with identifier `id`:
    /// `/api/v1/campaigns/{id}`.
    pub fn campaign_endpoint(id: i32) -> (r: String)
        ensures
            r@ == "/api/v1/campaigns/"@ + int_chars(id as int),
    {
        with_number("/api/v1/campaigns/", id as i64)
    }
}

} // verus!
