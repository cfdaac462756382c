//! The protocol-setting operations.
use vstd::prelude::*;
use crate::errors::ContractError;
use crate::governance::common::contracts::{default_response, empty_response};
use crate::governance::valkyrie::states::ValkyrieConfig;
use crate::math::Decimal;
use crate::messages::Response;

verus! {

/// The instantiation message of the protocol settings.
#[derive(Clone, Debug, PartialEq, Eq)]
pub struct ValkyrieConfigInitMsg {
    pub burn_contract: String,
    pub reward_withdraw_burn_rate: Decimal,
}

/// Sets up the protocol settings.
pub fn instantiate(msg: ValkyrieConfigInitMsg) -> (r: (ValkyrieConfig, Response))
    ensures
        r.0.burn_contract == msg.burn_contract,
        r.0.reward_withdraw_burn_rate == msg.reward_withdraw_burn_rate,
        empty_response(r.1),
{
    (
        ValkyrieConfig {
            burn_contract: msg.burn_contract,
            reward_withdraw_burn_rate: msg.reward_withdraw_burn_rate,
        },
        default_response(),
    )
}

/// Updates the settings that are given; only the contract itself may.
pub fn update_config(
    valkyrie_config: &mut ValkyrieConfig,
    contract_address: &String,
    sender: &String,
    burn_contract: Option<String>,
    reward_withdraw_burn_rate: Option<Decimal>,
) -> (r: Result<Response, ContractError>)
    ensures
        contract_address@ != sender@ ==> r == Err::<Response, ContractError>(
            ContractError::Unauthorized,
        ) && *final(valkyrie_config) == *old(valkyrie_config),
        contract_address@ == sender@ ==> r is Ok && empty_response(r->Ok_0) && final(valkyrie_config).burn_contract == (if burn_contract is Some {
            burn_contract->Some_0
        } else {
            old(valkyrie_config).burn_contract
        }) && final(valkyrie_config).reward_withdraw_burn_rate == (
        if reward_withdraw_burn_rate is Some {
            reward_withdraw_burn_rate->Some_0
        } else {
            old(valkyrie_config).reward_withdraw_burn_rate
        }),
{
    if *contract_address != *sender {
        return Err(ContractError::Unauthorized);
    }
    if let Some(burn_contract) = burn_contract {
        valkyrie_config.burn_contract = burn_contract;
    }
    if let Some(rate) = reward_withdraw_burn_rate {
        valkyrie_config.reward_withdraw_burn_rate = rate;
    }
    Ok(default_response())
}

} // verus!
