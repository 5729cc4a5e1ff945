//! The resources of the raw API, as ArrowHead's own service shapes them.

pub mod assignment;
pub mod campaign;
pub mod dispatch;
pub mod planet;
pub mod stats;
pub mod war;
