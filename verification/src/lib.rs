//! Client-side core for the Helldivers 2 community API: the rate-limited
//! request gate, the fetch protocol built on it, and the data model.

use vstd::prelude::*;

pub mod decimal;
pub mod fetch;
pub mod gate;
pub mod headers;
pub mod middleware;
pub mod models;
pub mod prelude;

verus! {

/// The Helldivers 2 community driven API. Its associated functions name the
/// endpoints that the resources are fetched from.
pub struct HellApi;

} // verus!
