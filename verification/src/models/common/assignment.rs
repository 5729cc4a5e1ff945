//! Tasks of an assignment, and the numbers that tell their kinds apart.

use crate::decimal::{read_i32, signed_flaw, signed_value, InvalidNumber};
use vstd::prelude::*;
use vstd::string::StringSliceAdditionalSpecFns;

verus! {

/// Represents a task type for an Assignment. Its exact values are not
/// known but some have been found.
#[derive(Clone, Copy, Debug, PartialEq, Eq, Structural)]
pub enum TaskType {
    /// Eradicate the opposing faction. Number 3.
    Eradication,
    /// Liberate the supplied planets. Number 11.
    Liberation,
    /// Defend against opposing forces. Number 12.
    Defense,
    /// Hold what was taken. Number 13.
    Control,
    /// A type that has no name yet, with its number.
    Unknown(i32),
}

impl TaskType {
    /// The task type that the API writes as `num`.
    pub open spec fn of_number(num: int) -> TaskType {
        if num == 3 {
            TaskType::Eradication
        } else if num == 11 {
            TaskType::Liberation
        } else if num == 12 {
            TaskType::Defense
        } else if num == 13 {
            TaskType::Control
        } else {
            TaskType::Unknown(num as i32)
        }
    }

    /// The number that the API writes for a task type.
    pub open spec fn to_number(self) -> int {
        match self {
            TaskType::Eradication => 3,
            TaskType::Liberation => 11,
            TaskType::Defense => 12,
            TaskType::Control => 13,
            TaskType::Unknown(num) => num as int,
        }
    }

    /// The task type that the API writes as `num`.
    pub fn from_number(num: i32) -> (r: TaskType)
        ensures
            r == TaskType::of_number(num as int),
    {
        match num {
            3 => TaskType::Eradication,
            11 => TaskType::Liberation,
            12 => TaskType::Defense,
            13 => TaskType::Control,
            _ => TaskType::Unknown(num),
        }
    }

    /// The number that the API writes of the task type.
    pub fn number(&self) -> (r: i32)
        ensures
            r == self.to_number(),
    {
        match *self {
            TaskType::Eradication => 3,
            TaskType::Liberation => 11,
            TaskType::Defense => 12,
            TaskType::Control => 13,
            TaskType::Unknown(num) => num,
        }
    }

    /// Reads a task type from the decimal numeral `s`: an optional sign and
    /// digits, nothing else, with a value that fits 32 bits. Of any other
    /// text it says what is wrong with it.
    pub fn from_str(s: &str) -> (r: Result<TaskType, InvalidNumber>)
        ensures
            match signed_value(s.spec_bytes(), i32::MIN as int, i32::MAX as int) {
                Some(num) => r == Ok::<TaskType, InvalidNumber>(TaskType::of_number(num)),
                None => r is Err && Some(r->Err_0) == signed_flaw(
                    s.spec_bytes(),
                    i32::MIN as int,
                    i32::MAX as int,
                ),
            },
    {
        match read_i32(s.as_bytes()) {
            Ok(num) => Ok(TaskType::from_number(num)),
            Err(flaw) => Err(flaw),
        }
    }
}

impl core::str::FromStr for TaskType {
    type Err = InvalidNumber;

    fn from_str(s: &str) -> (r: Result<TaskType, InvalidNumber>)
        ensures
            match signed_value(s.spec_bytes(), i32::MIN as int, i32::MAX as int) {
                Some(num) => r == Ok::<TaskType, InvalidNumber>(TaskType::of_number(num)),
                None => r is Err && Some(r->Err_0) == signed_flaw(
                    s.spec_bytes(),
                    i32::MIN as int,
                    i32::MAX as int,
                ),
            },
    {
        TaskType::from_str(s)
    }
}

/// Every number has one task type, and the task type gives the number back.
pub proof fn lemma_number_round_trip(num: i32)
    ensures
        TaskType::of_number(num as int).to_number() == num,
{
}

/// Represents a task in an Assignment. Its exact values are not known and
/// little of its purpose is clear.
#[derive(Debug, PartialEq, Eq)]
pub struct Task {
    /// Numerical value. Only some values are known.
    pub task_type: TaskType,
    /// A list of numerical values. Purpose unknown.
    pub values: Vec<i32>,
    /// A list of numerical values. Purpose unknown.
    pub value_types: Vec<i32>,
}

/// The type of a joint operation identifier.
pub type JointOperationId = i32;

/// The type of a campaign identifier.
pub type CampaignId = i32;

} // verus!
