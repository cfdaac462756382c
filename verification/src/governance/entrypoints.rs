//! The instantiation of the governance contract as a whole.
use vstd::prelude::*;
use crate::errors::{ContractError, is_generic_err};
use crate::governance::common::{ContractConfig, ContractConfigInitMsg};
use crate::governance::common::contracts::{default_response, empty_response};
use crate::governance::poll::{PollConfig, PollState};
use crate::governance::poll::executions::PollConfigInitMsg;
use crate::governance::staking::{StakingConfig, StakingState};
use crate::governance::staking::executions::StakingConfigInitMsg;
use crate::math::DECIMAL_FRACTIONAL;
use crate::messages::Response;

verus! {

/// The instantiation message of the governance contract.
#[derive(Clone, Debug, PartialEq, Eq)]
pub struct InstantiateMsg {
    pub contract_config: ContractConfigInitMsg,
    pub staking_config: StakingConfigInitMsg,
    pub poll_config: PollConfigInitMsg,
}

/// The state a new governance contract stores.
#[derive(Clone, Debug, PartialEq, Eq)]
pub struct GovernanceSetup {
    pub contract_config: ContractConfig,
    pub staking_config: StakingConfig,
    pub staking_state: StakingState,
    pub poll_config: PollConfig,
    pub poll_state: PollState,
}

/// Sets up the configuration, staking and polls of the contract at
/// `contract_address`. It fails when the poll quorum or threshold exceeds one.
pub fn instantiate(contract_address: String, msg: InstantiateMsg) -> (r: Result<
    (GovernanceSetup, Response),
    ContractError,
>)
    ensures
        msg.poll_config.quorum.atomics > DECIMAL_FRACTIONAL ==> r is Err && is_generic_err(
            r->Err_0,
            "quorum must be 0 to 1"@,
        ),
        msg.poll_config.quorum.atomics <= DECIMAL_FRACTIONAL && msg.poll_config.threshold.atomics
            > DECIMAL_FRACTIONAL ==> r is Err && is_generic_err(
            r->Err_0,
            "threshold must be 0 to 1"@,
        ),
        msg.poll_config.quorum.atomics <= DECIMAL_FRACTIONAL && msg.poll_config.threshold.atomics
            <= DECIMAL_FRACTIONAL ==> r is Ok && ({
            let s = r->Ok_0.0;
            &&& s.contract_config.address == contract_address
            &&& s.contract_config.governance_token == msg.contract_config.governance_token
            &&& s.staking_config.distributor == msg.staking_config.distributor
            &&& s.staking_state.total_share == 0
            &&& s.poll_config == (PollConfig {
                quorum: msg.poll_config.quorum,
                threshold: msg.poll_config.threshold,
                voting_period: msg.poll_config.voting_period,
                execution_delay_period: msg.poll_config.execution_delay_period,
                proposal_deposit: msg.poll_config.proposal_deposit,
                snapshot_period: msg.poll_config.snapshot_period,
            })
            &&& s.poll_state == (PollState { poll_count: 0, total_deposit: 0 })
            &&& empty_response(r->Ok_0.1)
        }),
{
    let (contract_config, _) = crate::governance::common::instantiate(
        contract_address,
        msg.contract_config,
    );
    let (staking_config, staking_state, _) = crate::governance::staking::executions::instantiate(
        msg.staking_config,
    );
    let (poll_config, poll_state, _) = crate::governance::poll::executions::instantiate(
        msg.poll_config,
    )?;
    Ok(
        (
            GovernanceSetup {
                contract_config,
                staking_config,
                staking_state,
                poll_config,
                poll_state,
            },
            default_response(),
        ),
    )
}

/// The migration leaves everything as it is.
pub fn migrate() -> (r: Response)
    ensures
        empty_response(r),
{
    default_response()
}

} // verus!
