//! Records and types shared by the raw and the v1 resources.

pub mod assignment;
pub mod time;
