//! The operations that participants and the administrator call.

pub mod claim;
pub mod initialize;
pub mod params;
pub mod position;
pub mod stake;
pub mod unstake;
