//! The governance contract: VKR staking, polls voted with the staked tokens,
//! and ticket rewards to the stakers.
pub mod common;
pub mod poll;
pub mod staking;
pub mod vp;
pub mod valkyrie;
pub mod cw20;
pub mod entrypoints;
