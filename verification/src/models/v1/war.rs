//! The war of the v1 API.

use crate::HellApi;
use vstd::prelude::*;

verus! {

impl HellApi {
    /// The endpoint of the current war: `/api/v1/war`.
    pub fn war_endpoint() -> (r: &'static str)
        ensures
            r@ == "/api/v1/war"@,
    {
        "/api/v1/war"
    }
}

} // verus!
