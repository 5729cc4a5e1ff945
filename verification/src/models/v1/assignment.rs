//! Assignments of the v1 API.

use crate::decimal::{int_chars, with_number};
use crate::models::common;
use crate::HellApi;
use vstd::prelude::*;

verus! {

/// Represents a task of an `Assignment`.
pub type Task = common::assignment::Task;

/// Represents the reward of an `Assignment`.
#[derive(Clone, Copy, Debug, PartialEq, Eq, Structural)]
pub struct Reward {
    /// The type of reward (medals, super credits, etc.).
    pub reward_type: i32,
    /// The amount the player will receive upon completion.
    pub amount: i32,
}

impl HellApi {
    /// The endpoint of the current major orders: `/api/v1/assignments`.
    pub fn assignments_endpoint() -> (r: &'static str)
        ensures
            r@ == "/api/v1/assignments"@,
    {
        "/api/v1/assignments"
    }

    /// The endpoint of one major order: `/api/v1/assignments/{index}`.
    pub fn assignment_endpoint(index: i64) -> (r: String)
        ensures
            r@ == "/api/v1/assignments/"@ + int_chars(index as int),
    {
        with_number("/api/v1/assignments/", index)
    }
}

} // verus!
