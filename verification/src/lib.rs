//! Economic core of a decentralized compute marketplace.
//!
//! Nodes stake collateral for a bounded duration and receive a dimensionless
//! reward weight ("xnos") that grows with both the amount and the duration of
//! the commitment.  A global, reflection-based ledger distributes pooled fees
//! to all weighted participants in constant time per operation: fees lower a
//! global exchange rate between reflections and xnos, which retroactively
//! raises every participant's withdrawable amount without touching any
//! individual record.

pub mod common;
pub mod instructions;
pub mod jobs;
pub mod rewards;
pub mod staking;
