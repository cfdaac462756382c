//! The protocol-setting queries.
use vstd::prelude::*;
use crate::bytes::{CanonicalAddr, copy_addr};
use crate::governance::valkyrie::state::{CampaignCode, ValkyrieConfig};

verus! {

/// The answer to a protocol-setting query.
#[derive(Clone, Debug, PartialEq, Eq)]
pub struct ValkyrieConfigResponse {
    pub campaign_code_whitelist: Vec<u64>,
    pub boost_contract: Option<CanonicalAddr>,
}

/// The answer to a campaign-code query.
#[derive(Clone, Debug, PartialEq, Eq)]
pub struct CampaignCodeInfoResponse {
    pub code_id: u64,
    pub source_code_url: String,
    pub description: String,
    pub maintainer: Option<String>,
}

/// The whitelist and the boost contract.
pub fn get_valkyrie_config(valkyrie_config: &ValkyrieConfig) -> (r: ValkyrieConfigResponse)
    ensures
        r.campaign_code_whitelist@ == valkyrie_config.campaign_code_whitelist@,
        r.boost_contract is Some == valkyrie_config.boost_contract is Some,
        r.boost_contract is Some ==> r.boost_contract->Some_0@
            == valkyrie_config.boost_contract->Some_0@,
{
    let mut whitelist: Vec<u64> = Vec::new();
    let mut i: usize = 0;
    while i < valkyrie_config.campaign_code_whitelist.len()
        invariant
            i <= valkyrie_config.campaign_code_whitelist@.len(),
            whitelist@ == valkyrie_config.campaign_code_whitelist@.take(i as int),
        decreases valkyrie_config.campaign_code_whitelist@.len() - i,
    {
        whitelist.push(valkyrie_config.campaign_code_whitelist[i]);
        proof {
            assert(valkyrie_config.campaign_code_whitelist@.take(i + 1)
                =~= valkyrie_config.campaign_code_whitelist@.take(i as int).push(
                valkyrie_config.campaign_code_whitelist@[i as int],
            ));
        }
        i = i + 1;
    }
    proof {
        assert(valkyrie_config.campaign_code_whitelist@.take(i as int)
            =~= valkyrie_config.campaign_code_whitelist@);
    }
    let boost_contract = match &valkyrie_config.boost_contract {
        Some(b) => Some(copy_addr(b)),
        None => None,
    };
    ValkyrieConfigResponse { campaign_code_whitelist: whitelist, boost_contract }
}

/// The campaign code stored under the id asked for.
pub fn get_campaign_code_info(campaign_code: CampaignCode) -> (r: CampaignCodeInfoResponse)
    ensures
        r == (CampaignCodeInfoResponse {
            code_id: campaign_code.code_id,
            source_code_url: campaign_code.source_code_url,
            description: campaign_code.description,
            maintainer: campaign_code.maintainer,
        }),
{
    CampaignCodeInfoResponse {
        code_id: campaign_code.code_id,
        source_code_url: campaign_code.source_code_url,
        description: campaign_code.description,
        maintainer: campaign_code.maintainer,
    }
}

} // verus!
