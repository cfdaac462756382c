//! The configuration operations of the admin-governed governance contract.
use vstd::prelude::*;
use crate::bytes::CanonicalAddr;
use crate::errors::ContractError;
use crate::governance::common::state::ContractConfig;
use crate::messages::Response;

verus! {

/// The empty response.
pub open spec fn empty_response(r: Response) -> bool {
    r@.messages.len() == 0 && r@.attributes.len() == 0
}

/// A response with no message and no attribute.
pub fn default_response() -> (r: Response)
    ensures
        empty_response(r),
{
    Response { messages: Vec::new(), attributes: Vec::new() }
}

/// Sets up the configuration: the sender becomes the admin.
pub fn instantiate(sender: CanonicalAddr, token_contract: CanonicalAddr) -> (r: (
    ContractConfig,
    Response,
))
    ensures
        r.0.admin@ == sender@,
        r.0.token_contract@ == token_contract@,
        r.0.boost_contract is None,
        empty_response(r.1),
{
    (ContractConfig { admin: sender, token_contract, boost_contract: None }, default_response())
}

/// Replaces the admin and the boost contract that are given; only the admin
/// may.
pub fn update_config(
    contract_config: &mut ContractConfig,
    sender: CanonicalAddr,
    admin: Option<CanonicalAddr>,
    boost_contract: Option<CanonicalAddr>,
) -> (r: Result<Response, ContractError>)
    ensures
        old(contract_config).admin@ != sender@ ==> r == Err::<Response, ContractError>(
            ContractError::Unauthorized,
        ) && *final(contract_config) == *old(contract_config),
        old(contract_config).admin@ == sender@ ==> r is Ok && empty_response(r->Ok_0)
            && final(contract_config).admin == (if admin is Some {
            admin->Some_0
        } else {
            old(contract_config).admin
        }) && final(contract_config).token_contract == old(contract_config).token_contract
            && final(contract_config).boost_contract == (if boost_contract is Some {
            boost_contract
        } else {
            old(contract_config).boost_contract
        }),
{
    if !contract_config.is_admin(sender) {
        return Err(ContractError::Unauthorized);
    }
    if let Some(admin) = admin {
        contract_config.admin = admin;
    }
    if let Some(boost_contract) = boost_contract {
        contract_config.boost_contract = Some(boost_contract);
    }
    Ok(default_response())
}

} // verus!
