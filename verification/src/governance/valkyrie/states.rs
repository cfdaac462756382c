//! The protocol settings: the burn contract and the burn rate of withdrawn
//! rewards.
use vstd::prelude::*;
use crate::math::Decimal;

verus! {

/// The burn contract and the burn rate of withdrawn rewards.
#[derive(Clone, Debug, PartialEq, Eq)]
pub struct ValkyrieConfig {
    pub burn_contract: String,
    pub reward_withdraw_burn_rate: Decimal,
}

} // verus!
