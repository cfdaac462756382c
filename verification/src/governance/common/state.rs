//! The configuration of the admin-governed governance contract, which holds
//! canonical addresses and an admin.
use vstd::prelude::*;
use crate::bytes::{CanonicalAddr, addr_eq};

verus! {

/// The admin, the token contract and the boost contract.
#[derive(Clone, Debug, PartialEq, Eq)]
pub struct ContractConfig {
    pub admin: CanonicalAddr,
    pub token_contract: CanonicalAddr,
    pub boost_contract: Option<CanonicalAddr>,
}

impl ContractConfig {
    /// Whether `address` is the admin.
    pub fn is_admin(&self, address: CanonicalAddr) -> (r: bool)
        ensures
            r == (self.admin@ == address@),
    {
        addr_eq(&self.admin, &address)
    }

    /// Whether `address` is the token contract.
    pub fn is_token_contract(&self, address: CanonicalAddr) -> (r: bool)
        ensures
            r == (self.token_contract@ == address@),
    {
        addr_eq(&self.token_contract, &address)
    }
}

} // verus!
