//! The resources of the v1 API, as the community service shapes them.

pub mod assignment;
pub mod campaign;
pub mod dispatch;
pub mod planet;
pub mod stats;
pub mod war;
