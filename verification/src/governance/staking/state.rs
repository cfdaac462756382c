//! The staking records of the admin-governed polls: the deposits of the
//! polls are kept with the staking totals, and each staker's votes lock
//! part of its balance.
use vstd::prelude::*;
use crate::governance::poll::state::VoterInfo;

verus! {

/// The staking totals.
#[derive(Clone, Copy, Debug, PartialEq, Eq, Structural)]
pub struct StakingState {
    pub total_share: u128,
    /// The deposits of the polls that have not ended.
    pub total_deposit: u128,
}

/// One staker's shares and the votes that lock its balance.
#[derive(Clone, Debug, PartialEq, Eq)]
pub struct StakingIndividualState {
    pub share: u128,
    /// The votes, by poll id.
    pub locked_balance: Vec<(u64, VoterInfo)>,
}

impl StakingIndividualState {
    /// A staker with no shares and no votes.
    pub fn default() -> (r: StakingIndividualState)
        ensures
            r.share == 0,
            r.locked_balance@.len() == 0,
    {
        StakingIndividualState { share: 0, locked_balance: Vec::new() }
    }
}

} // verus!
