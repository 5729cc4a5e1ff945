//! The data model of the API: the records that its resources are made of.

pub mod assignment;
pub mod campaign;
pub mod common;
pub mod dispatch;
pub mod planet;
pub mod raw;
pub mod stats;
pub mod v1;
pub mod war;
