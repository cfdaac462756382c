//! The configuration shared by the parts of the governance contract.
pub mod contracts;
pub mod state;

use vstd::prelude::*;
use crate::errors::{StdError, checked_sub, is_sub_overflow};
use crate::governance::poll::PollState;
use crate::messages::{Response, action_response, make_response};

verus! {

/// The contract's own address and the governance token it stakes.
#[derive(Clone, Debug, PartialEq, Eq)]
pub struct ContractConfig {
    pub address: String,
    pub governance_token: String,
}

/// The instantiation message of the configuration.
#[derive(Clone, Debug, PartialEq, Eq)]
pub struct ContractConfigInitMsg {
    pub governance_token: String,
}

/// The answer to a contract-config query.
#[derive(Clone, Debug, PartialEq, Eq)]
pub struct ContractConfigResponse {
    pub governance_token: String,
}

impl ContractConfig {
    /// Whether `address` is the governance token.
    pub fn is_governance_token(&self, address: &String) -> (r: bool)
        ensures
            r == (self.governance_token@ == address@),
    {
        self.governance_token == *address
    }
}

/// The governance tokens that the stakers own: the contract's balance
/// (`contract_balance`) minus the deposits of the polls. It is an error when
/// the deposits exceed the balance.
pub fn load_available_balance(contract_balance: u128, poll_state: &PollState) -> (r: Result<
    u128,
    StdError,
>)
    ensures
        contract_balance >= poll_state.total_deposit ==> r == Ok::<u128, StdError>(
            (contract_balance - poll_state.total_deposit) as u128,
        ),
        contract_balance < poll_state.total_deposit ==> r is Err && is_sub_overflow(
            r->Err_0,
            contract_balance,
            poll_state.total_deposit,
        ),
{
    checked_sub(contract_balance, poll_state.total_deposit)
}

/// Sets up the configuration: `contract_address` is the contract's own
/// address and `msg.governance_token` the token it stakes.
pub fn instantiate(contract_address: String, msg: ContractConfigInitMsg) -> (r: (
    ContractConfig,
    Response,
))
    ensures
        r.0.address == contract_address,
        r.0.governance_token == msg.governance_token,
        r.1@ == action_response("instantiate"@),
{
    let response = make_response("instantiate");
    (ContractConfig { address: contract_address, governance_token: msg.governance_token }, response)
}

/// The governance token of the configuration.
pub fn get_contract_config(contract_config: &ContractConfig) -> (r: ContractConfigResponse)
    ensures
        r.governance_token == contract_config.governance_token,
{
    ContractConfigResponse { governance_token: contract_config.governance_token.clone() }
}

} // verus!
