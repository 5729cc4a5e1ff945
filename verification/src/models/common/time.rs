//! The calendar type that timestamps of the API are held in.

use vstd::prelude::*;

verus! {

/// `chrono::NaiveDateTime`, a date and time of day without a time zone.
/// Opaque here: records carry it, nothing reads it.
#[verifier::external_type_specification]
#[verifier::external_body]
pub struct ExNaiveDateTime(chrono::NaiveDateTime);

} // verus!
