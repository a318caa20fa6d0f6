//! Reference data that the rules read.

pub mod fits;
pub mod fleets;
pub mod skills;
