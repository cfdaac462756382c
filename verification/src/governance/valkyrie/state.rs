//! The protocol settings of the admin-governed contract: the whitelist of campaign
//! code ids and the boost contract.
use vstd::prelude::*;
use crate::bytes::CanonicalAddr;

verus! {

/// The whitelist of campaign code ids and the boost contract.
#[derive(Clone, Debug, PartialEq, Eq)]
pub struct ValkyrieConfig {
    pub campaign_code_whitelist: Vec<u64>,
    pub boost_contract: Option<CanonicalAddr>,
}

/// A campaign code that may be whitelisted.
#[derive(Clone, Debug, PartialEq, Eq)]
pub struct CampaignCode {
    pub code_id: u64,
    pub source_code_url: String,
    pub description: String,
    pub maintainer: Option<String>,
}

} // verus!
