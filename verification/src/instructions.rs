//! The staking instructions: bound checks first, then the state change.
//! A rejected instruction leaves the stake record exactly as it was.

pub mod extend;
pub mod stake;
