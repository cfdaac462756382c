//! The protocol-setting operations of the admin-governed contract.
use vstd::prelude::*;
use crate::bytes::CanonicalAddr;
use crate::errors::ContractError;
use crate::governance::common::contracts::{default_response, empty_response};
use crate::governance::common::state::ContractConfig;
use crate::governance::valkyrie::state::{CampaignCode, ValkyrieConfig};

verus! {

/// Sets up an empty whitelist and no boost contract.
pub fn instantiate() -> (r: (ValkyrieConfig, crate::messages::Response))
    ensures
        r.0.campaign_code_whitelist@.len() == 0,
        r.0.boost_contract is None,
        empty_response(r.1),
{
    (ValkyrieConfig { campaign_code_whitelist: Vec::new(), boost_contract: None }, default_response())
}

/// Sets the boost contract, when one is given; only the admin may.
pub fn update_config(
    contract_config: &ContractConfig,
    valkyrie_config: &mut ValkyrieConfig,
    sender: CanonicalAddr,
    boost_contract: Option<CanonicalAddr>,
) -> (r: Result<crate::messages::Response, ContractError>)
    ensures
        contract_config.admin@ != sender@ ==> r == Err::<crate::messages::Response, ContractError>(
            ContractError::Unauthorized,
        ) && *final(valkyrie_config) == *old(valkyrie_config),
        contract_config.admin@ == sender@ ==> r is Ok && empty_response(r->Ok_0) && final(valkyrie_config).campaign_code_whitelist == old(valkyrie_config).campaign_code_whitelist && final(valkyrie_config).boost_contract == (if boost_contract is Some {
            boost_contract
        } else {
            old(valkyrie_config).boost_contract
        }),
{
    if !contract_config.is_admin(sender) {
        return Err(ContractError::Unauthorized);
    }
    if let Some(boost_contract) = boost_contract {
        valkyrie_config.boost_contract = Some(boost_contract);
    }
    Ok(default_response())
}

/// Records a campaign code and whitelists its id; only the contract itself
/// may. The result holds the campaign code to store.
pub fn add_campaign_code_whitelist(
    valkyrie_config: &mut ValkyrieConfig,
    contract_address: &String,
    sender: &String,
    code_id: u64,
    source_code_url: String,
    description: String,
    maintainer: Option<String>,
) -> (r: Result<(CampaignCode, crate::messages::Response), ContractError>)
    ensures
        contract_address@ != sender@ ==> r == Err::<
            (CampaignCode, crate::messages::Response),
            ContractError,
        >(ContractError::Unauthorized) && *final(valkyrie_config) == *old(valkyrie_config),
        contract_address@ == sender@ ==> r is Ok && r->Ok_0.0 == (CampaignCode {
            code_id,
            source_code_url,
            description,
            maintainer,
        }) && empty_response(r->Ok_0.1) && final(valkyrie_config).campaign_code_whitelist@ == old(valkyrie_config).campaign_code_whitelist@.push(code_id) && final(valkyrie_config).boost_contract == old(valkyrie_config).boost_contract,
{
    if *contract_address != *sender {
        return Err(ContractError::Unauthorized);
    }
    let campaign_code = CampaignCode { code_id, source_code_url, description, maintainer };
    valkyrie_config.campaign_code_whitelist.push(code_id);
    Ok((campaign_code, default_response()))
}

/// Removes the first occurrence of `code_id` from the whitelist; only the
/// contract itself may. The code id must be whitelisted.
pub fn remove_campaign_code_whitelist(
    valkyrie_config: &mut ValkyrieConfig,
    contract_address: &String,
    sender: &String,
    code_id: u64,
) -> (r: Result<crate::messages::Response, ContractError>)
    requires
        contract_address@ == sender@ ==> old(valkyrie_config).campaign_code_whitelist@.contains(
            code_id,
        ),
    ensures
        contract_address@ != sender@ ==> r == Err::<crate::messages::Response, ContractError>(
            ContractError::Unauthorized,
        ) && *final(valkyrie_config) == *old(valkyrie_config),
        contract_address@ == sender@ ==> r is Ok && empty_response(r->Ok_0) && final(valkyrie_config).boost_contract == old(valkyrie_config).boost_contract && (exists|i: int|
            0 <= i < old(valkyrie_config).campaign_code_whitelist@.len() && old(valkyrie_config).campaign_code_whitelist@[i] == code_id && (forall|j: int|
                0 <= j < i ==> old(valkyrie_config).campaign_code_whitelist@[j] != code_id)
                && final(valkyrie_config).campaign_code_whitelist@ == old(valkyrie_config).campaign_code_whitelist@.remove(i)),
{
    if *contract_address != *sender {
        return Err(ContractError::Unauthorized);
    }
    let n = valkyrie_config.campaign_code_whitelist.len();
    let mut index: usize = 0;
    while index < n && valkyrie_config.campaign_code_whitelist[index] != code_id
        invariant
            n == valkyrie_config.campaign_code_whitelist@.len(),
            index <= n,
            valkyrie_config.campaign_code_whitelist@.contains(code_id),
            forall|j: int|
                0 <= j < index ==> valkyrie_config.campaign_code_whitelist@[j] != code_id,
        decreases n - index,
    {
        index = index + 1;
    }
    proof {
        if index == n {
            let k = choose|k: int|
                0 <= k < n && valkyrie_config.campaign_code_whitelist@[k] == code_id;
            assert(valkyrie_config.campaign_code_whitelist@[k] == code_id);
        }
    }
    valkyrie_config.campaign_code_whitelist.remove(index);
    Ok(default_response())
}

} // verus!
