//! Reward accounting for a tiered staking pool: a global reward-per-share
//! accumulator, lazily settled positions, lockup penalties, claim-time
//! multipliers, an insurance fund and stake-weighted governance votes.

pub mod books;
pub mod conservation;
pub mod error;
pub mod governance;
pub mod lp;
pub mod math;
pub mod rewards;
pub mod staking;
pub mod state;
