//! The staking queries of the governance contract.
use vstd::prelude::*;
use crate::errors::{ContractError, is_sub_overflow};
use crate::governance::common::load_available_balance;
use crate::governance::poll::{PollState, VoteInfo};
use crate::governance::staking::{
    StakerState, StakingConfig, StakingState, spec_balance, spec_kept_votes,
};
use crate::math::{DECIMAL_FRACTIONAL, Decimal, checked_multiply_ratio, spec_ratio_atomics};

verus! {

/// The answer to a staking-config query.
#[derive(Clone, Debug, PartialEq, Eq)]
pub struct StakingConfigResponse {
    pub distributor: Option<String>,
}

/// The answer to a staking-state query.
#[derive(Clone, Copy, Debug, PartialEq, Eq, Structural)]
pub struct StakingStateResponse {
    pub total_share: u128,
}

/// The answer to a staker-state query.
#[derive(Clone, Debug, PartialEq, Eq)]
pub struct StakerStateResponse {
    pub balance: u128,
    pub share: u128,
    pub votes: Vec<(u64, VoteInfo)>,
}

/// The configuration of staking.
pub fn get_staking_config(staking_config: &StakingConfig) -> (r: StakingConfigResponse)
    ensures
        r.distributor == staking_config.distributor,
{
    StakingConfigResponse {
        distributor: match &staking_config.distributor {
            Some(d) => Some(d.clone()),
            None => None,
        },
    }
}

/// The total of the shares.
pub fn get_staking_state(staking_state: &StakingState) -> (r: StakingStateResponse)
    ensures
        r.total_share == staking_state.total_share,
{
    StakingStateResponse { total_share: staking_state.total_share }
}

/// A staker's tokens, shares and the votes on polls still in progress
/// (`in_progress[i]` tells for the `i`-th vote).
pub fn get_staker_state(
    staking_state: &StakingState,
    poll_state: &PollState,
    staker_state: StakerState,
    in_progress: &Vec<bool>,
    contract_balance: u128,
) -> (r: Result<StakerStateResponse, ContractError>)
    requires
        in_progress@.len() == staker_state.votes@.len(),
        contract_balance >= poll_state.total_deposit ==> spec_balance(
            staker_state.share,
            staking_state.total_share,
            (contract_balance - poll_state.total_deposit) as u128,
        ) <= u128::MAX,
    ensures
        contract_balance < poll_state.total_deposit ==> r is Err && r->Err_0 is Std
            && is_sub_overflow(r->Err_0->Std_0, contract_balance, poll_state.total_deposit),
        contract_balance >= poll_state.total_deposit ==> r is Ok && r->Ok_0.balance
            == spec_balance(
            staker_state.share,
            staking_state.total_share,
            (contract_balance - poll_state.total_deposit) as u128,
        ) && r->Ok_0.share == staker_state.share && r->Ok_0.votes@ == spec_kept_votes(
            staker_state.votes@,
            in_progress@,
        ),
{
    let contract_available_balance = match load_available_balance(contract_balance, poll_state) {
        Ok(v) => v,
        Err(e) => {
            return Err(ContractError::Std(e));
        },
    };
    let balance = staker_state.load_balance(staking_state, contract_available_balance);
    let mut staker_state = staker_state;
    staker_state.clean_votes(in_progress);
    Ok(StakerStateResponse { balance, share: staker_state.share, votes: staker_state.votes })
}

/// Whether a staker's share of all shares can be taken: there are shares,
/// and the ratio fits in 128 bits.
pub fn voting_power_fits(staking_state: &StakingState, staker_state: &StakerState) -> (r: bool)
    ensures
        r == (staking_state.total_share != 0 && spec_ratio_atomics(
            staker_state.share as int,
            staking_state.total_share as int,
        ) <= u128::MAX),
{
    staking_state.total_share != 0 && checked_multiply_ratio(
        staker_state.share,
        DECIMAL_FRACTIONAL,
        staking_state.total_share,
    ).is_some()
}

/// A staker's share of all shares, as a decimal.
pub fn get_voting_power(staking_state: &StakingState, staker_state: &StakerState) -> (r: Decimal)
    requires
        staking_state.total_share != 0,
        spec_ratio_atomics(staker_state.share as int, staking_state.total_share as int)
            <= u128::MAX,
    ensures
        r.atomics == spec_ratio_atomics(
            staker_state.share as int,
            staking_state.total_share as int,
        ),
{
    Decimal::from_ratio(staker_state.share, staking_state.total_share)
}

} // verus!
