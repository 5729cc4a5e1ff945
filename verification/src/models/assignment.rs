//! Assignments as the client hands them on: what Super Earth asks of the
//! Helldivers, with its tasks and its reward.

use core::time::Duration;
use vstd::prelude::*;

verus! {

/// Represents an assignment given from Super Earth to the Helldivers.
#[derive(Debug, PartialEq, Eq)]
pub struct Assignment {
    /// An internal identifier for this assignment.
    pub id32: i64,
    /// A list of numbers. How they represent progress is currently unknown.
    pub progress: Vec<i32>,
    /// The time left until this assignment expires.
    pub expires_in: Duration,
    /// Contains detailed information on this assignment like briefing,
    /// rewards, etc.
    pub setting: Setting,
}

/// Represents the details of an Assignment like rewards and requirements.
#[derive(Debug, PartialEq, Eq)]
pub struct Setting {
    /// The type of the assignment. Values are unknown at this point.
    pub _type: i32,
    /// The title of the assignment.
    pub override_title: String,
    /// The briefing (description) of this assignment.
    pub override_brief: String,
    /// A description of what is expected of Helldivers to complete the
    /// assignment.
    pub task_descriptions: String,
    /// A list of Tasks that describe the assignment requirements.
    pub tasks: Vec<Task>,
    /// Information about the reward that players will receive upon completion.
    pub reward: Reward,
    /// Flags suspected to be a binary OR'd value. The exact purpose is
    /// unknown as of now.
    pub flags: i32,
}

/// Represents a task in an Assignment. Its exact values are not known and
/// little of its purpose is clear.
#[derive(Debug, PartialEq, Eq)]
pub struct Task {
    /// Numerical value. Purpose unknown.
    pub _type: i32,
    /// A list of numerical values. Purpose unknown.
    pub values: Vec<i32>,
    /// A list of numerical values. Purpose unknown.
    pub value_types: Vec<i32>,
}

/// Represents the reward of an Assignment.
#[derive(Debug, PartialEq, Eq)]
pub struct Reward {
    /// The type of reward.
    pub _type: RewardType,
    /// An internal identifier of this Reward.
    pub id32: i32,
    /// The amount the player will receive upon completion.
    pub amount: i32,
}

/// The type of a Reward. Currently only one value is known.
#[derive(Clone, Copy, Debug, PartialEq, Eq, Structural)]
pub enum RewardType {
    /// Medals. Number 1.
    Medals,
    /// A type that has no name yet, with its number.
    Unknown(i32),
}

/// Represents a task of a major order.
pub type MajorOrderTask = Task;

/// Represents the reward of a major order.
#[derive(Clone, Copy, Debug, PartialEq, Eq, Structural)]
pub struct MajorOrderReward {
    /// The type of reward (medals, super credits, etc.).
    pub _type: i32,
    /// The amount the player will receive upon completion.
    pub amount: i32,
}

/// The type of a joint operation identifier.
pub type JointOperationId = i32;

} // verus!
