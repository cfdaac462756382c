//! The LP staking contract: liquidity tokens are bonded, and rewards accrue
//! to the bonded amounts by a distribution schedule.
//!
//! Each function takes the stored values that the contract call reads and
//! updates them in place; when it returns an error they are left as they were,
//! and the caller stores nothing.
use vstd::prelude::*;
use crate::errors::{
    ContractError, StdError, checked_sub, generic_err, is_generic_err, is_sub_overflow,
};
use crate::math::{
    Decimal, lemma_div_mul_le, lemma_le_div, lemma_ratio_nonneg, mul_decimal, spec_mul_decimal,
    spec_ratio_atomics,
};
use crate::messages::{
    ExecuteBody, Response, ResponseView, action_response, make_response, spec_decimal,
    transfer_msg, uint_to_string, with_attr, with_flag, with_msg,
};
use crate::schedule::{
    ScheduleEntry, copy_schedule, is_valid_schedule, law_no_reward_at_same_height,
    index_growth_fits, lemma_schedule_reward_nonneg, reward_growth_fits,
    schedule_distributed_amount, schedule_reward, schedule_reward_defined, spec_valid_schedule,
};

verus! {

/// The configuration of the contract.
#[derive(Clone, Debug, PartialEq, Eq)]
pub struct Config {
    pub admin: String,
    /// The reward token.
    pub token: String,
    pub pair: String,
    /// The liquidity token that is bonded.
    pub lp_token: String,
    pub whitelisted_contracts: Vec<String>,
    pub distribution_schedule: Vec<ScheduleEntry>,
}

/// The global reward state.
#[derive(Clone, Copy, Debug, PartialEq, Eq, Structural)]
pub struct State {
    /// The height up to which rewards have been distributed.
    pub last_distributed: u64,
    pub total_bond_amount: u128,
    /// The reward paid per bonded token since the contract started.
    pub global_reward_index: Decimal,
}

/// The state of one staker.
#[derive(Clone, Debug, PartialEq, Eq)]
pub struct StakerInfo {
    pub owner: String,
    /// The global reward index at the staker's last reward computation.
    pub reward_index: Decimal,
    pub bond_amount: u128,
    pub pending_reward: u128,
}

/// The instantiation message.
#[derive(Clone, Debug, PartialEq, Eq)]
pub struct InstantiateMsg {
    pub token: String,
    pub pair: String,
    pub lp_token: String,
    pub whitelisted_contracts: Vec<String>,
    pub distribution_schedule: Vec<ScheduleEntry>,
}

/// The answer to a staker-info query.
#[derive(Clone, Debug, PartialEq, Eq)]
pub struct StakerInfoResponse {
    pub staker_addr: String,
    pub reward_index: Decimal,
    pub bond_amount: u128,
    pub pending_reward: u128,
}

/// The message a cw20 token sends along with tokens.
#[derive(Clone, Copy, Debug, PartialEq, Eq, Structural)]
pub enum Cw20HookMsg {
    Bond,
}

/// The reward index of `s` after rewards are distributed up to `height`:
/// the payout of the schedule since the last distribution, divided over the
/// bonded amount. With nothing bonded the index does not move.
pub open spec fn spec_compute_reward(s: State, schedule: Seq<ScheduleEntry>, height: u64) -> State {
    if s.total_bond_amount == 0 {
        State { last_distributed: height, ..s }
    } else {
        State {
            last_distributed: height,
            total_bond_amount: s.total_bond_amount,
            global_reward_index: Decimal {
                atomics: (s.global_reward_index.atomics + spec_ratio_atomics(
                    schedule_reward(schedule, s.last_distributed, height),
                    s.total_bond_amount as int,
                )) as u128,
            },
        }
    }
}

/// `compute_reward` stays within 128 bits.
pub open spec fn compute_reward_defined(s: State, schedule: Seq<ScheduleEntry>, height: u64) -> bool {
    s.total_bond_amount != 0 ==> {
        &&& schedule_reward_defined(schedule, s.last_distributed, height)
        &&& s.global_reward_index.atomics + spec_ratio_atomics(
            schedule_reward(schedule, s.last_distributed, height),
            s.total_bond_amount as int,
        ) <= u128::MAX
    }
}

/// The reward that `bond` tokens have earned at the reward index `atomics`.
pub open spec fn earned(bond: u128, atomics: u128) -> int {
    spec_mul_decimal(bond as int, atomics as int)
}

/// `compute_staker_reward` stays within 128 bits.
pub open spec fn staker_reward_defined(info: StakerInfo, s: State) -> bool {
    &&& earned(info.bond_amount, s.global_reward_index.atomics) <= u128::MAX
    &&& earned(info.bond_amount, info.reward_index.atomics) <= u128::MAX
    &&& earned(info.bond_amount, s.global_reward_index.atomics) >= earned(
        info.bond_amount,
        info.reward_index.atomics,
    ) ==> info.pending_reward + earned(info.bond_amount, s.global_reward_index.atomics)
        - earned(info.bond_amount, info.reward_index.atomics) <= u128::MAX
}

/// Whether the staker's reward can be brought up to the index of `s`: it
/// cannot when the staker's index stands above the global one.
pub open spec fn staker_reward_ok(info: StakerInfo, s: State) -> bool {
    earned(info.bond_amount, s.global_reward_index.atomics) >= earned(
        info.bond_amount,
        info.reward_index.atomics,
    )
}

/// The pending reward of `info` once its reward is brought up to the index of `s`.
pub open spec fn spec_pending_after(info: StakerInfo, s: State) -> int {
    info.pending_reward + earned(info.bond_amount, s.global_reward_index.atomics) - earned(
        info.bond_amount,
        info.reward_index.atomics,
    )
}

/// `e` is the error of bringing `info`'s reward up to the index of `s` while
/// its own index stands above: the underflow of the earned amounts.
pub open spec fn is_reward_underflow(e: StdError, info: StakerInfo, s: State) -> bool {
    is_sub_overflow(
        e,
        earned(info.bond_amount, s.global_reward_index.atomics) as u128,
        earned(info.bond_amount, info.reward_index.atomics) as u128,
    )
}

/// `after` is `before` with its reward brought up to the index of `s`.
pub open spec fn reward_applied(before: StakerInfo, after: StakerInfo, s: State) -> bool {
    &&& after.owner == before.owner
    &&& after.bond_amount == before.bond_amount
    &&& after.reward_index == s.global_reward_index
    &&& after.pending_reward == spec_pending_after(before, s)
}

/// The response of a call that sends `amount` of `token` to `recipient`,
/// with the attributes `owner` and `amount`.
pub open spec fn transfer_response(
    action: Seq<char>,
    token: Seq<char>,
    recipient: Seq<char>,
    amount: u128,
) -> ResponseView {
    with_attr(
        with_attr(
            with_msg(action_response(action), transfer_msg(token, recipient, amount)),
            "owner"@,
            recipient,
        ),
        "amount"@,
        spec_decimal(amount as nat),
    )
}

/// The whitelisted contracts, as strings.
pub open spec fn whitelist_view(config: Config) -> Seq<Seq<char>> {
    config.whitelisted_contracts@.map_values(|c: String| c@)
}

impl Config {
    /// Who may bond: any wallet, and a contract (`sender_is_contract`, as the
    /// chain tells) only when it is whitelisted.
    pub fn is_authorized(&self, sender: &String, sender_is_contract: bool) -> (r: bool)
        ensures
            r == (!sender_is_contract || whitelist_view(*self).contains(sender@)),
    {
        if !sender_is_contract {
            return true;
        }
        let n = self.whitelisted_contracts.len();
        let mut i: usize = 0;
        while i < n
            invariant
                n == self.whitelisted_contracts@.len(),
                i <= n,
                forall|j: int| 0 <= j < i ==> whitelist_view(*self)[j] != sender@,
            decreases n - i,
        {
            if self.whitelisted_contracts[i] == *sender {
                assert(whitelist_view(*self)[i as int] == sender@);
                return true;
            }
            i = i + 1;
        }
        proof {
            if whitelist_view(*self).contains(sender@) {
                let j = choose|j: int| 0 <= j < whitelist_view(*self).len() && whitelist_view(*self)[j] == sender@;
                assert(whitelist_view(*self)[j] != sender@);
            }
        }
        false
    }
}

impl State {
    /// Distributes the rewards of the schedule up to `block_height`.
    pub fn compute_reward(&mut self, config: &Config, block_height: u64)
        requires
            compute_reward_defined(*old(self), config.distribution_schedule@, block_height),
        ensures
            *final(self) == spec_compute_reward(
                *old(self),
                config.distribution_schedule@,
                block_height,
            ),
    {
        if self.total_bond_amount == 0 {
            self.last_distributed = block_height;
            return ;
        }
        let distributed_amount = schedule_distributed_amount(
            &config.distribution_schedule,
            self.last_distributed,
            block_height,
        );
        proof {
            lemma_ratio_nonneg(distributed_amount as int, self.total_bond_amount as int);
        }
        let ratio = Decimal::from_ratio(distributed_amount, self.total_bond_amount);
        self.last_distributed = block_height;
        self.global_reward_index = self.global_reward_index.add(ratio);
    }
}

impl StakerInfo {
    /// A staker with nothing bonded and nothing pending.
    pub fn default(owner: String) -> (r: StakerInfo)
        ensures
            r.owner == owner,
            r.reward_index.atomics == 0,
            r.bond_amount == 0,
            r.pending_reward == 0,
    {
        StakerInfo { owner, reward_index: Decimal::zero(), bond_amount: 0, pending_reward: 0 }
    }

    /// Moves the reward earned since the staker's last computation into the
    /// pending reward, and brings the staker's index up to the global one.
    pub fn compute_staker_reward(&mut self, state: &State) -> (r: Result<(), StdError>)
        requires
            staker_reward_defined(*old(self), *state),
        ensures
            staker_reward_ok(*old(self), *state) ==> r is Ok && reward_applied(
                *old(self),
                *final(self),
                *state,
            ),
            !staker_reward_ok(*old(self), *state) ==> r is Err && *final(self) == *old(self)
                && is_sub_overflow(
                r->Err_0,
                earned(old(self).bond_amount, state.global_reward_index.atomics) as u128,
                earned(old(self).bond_amount, old(self).reward_index.atomics) as u128,
            ),
    {
        let total = mul_decimal(self.bond_amount, state.global_reward_index);
        let own = mul_decimal(self.bond_amount, self.reward_index);
        let pending_reward = match checked_sub(total, own) {
            Ok(v) => v,
            Err(e) => {
                return Err(e);
            },
        };
        self.reward_index = state.global_reward_index;
        self.pending_reward = self.pending_reward + pending_reward;
        Ok(())
    }
}

/// Sets up the contract: the sender becomes the admin, and rewards start
/// accruing from `block_height`. The schedule must be valid.
pub fn instantiate(sender: String, block_height: u64, msg: InstantiateMsg) -> (r: Result<
    (Config, State, Response),
    ContractError,
>)
    ensures
        !spec_valid_schedule(msg.distribution_schedule@) ==> r is Err && is_generic_err(
            r->Err_0,
            "invalid schedule"@,
        ),
        spec_valid_schedule(msg.distribution_schedule@) ==> r is Ok && ({
            let (config, state, response) = r->Ok_0;
            &&& config.admin == sender
            &&& config.token == msg.token
            &&& config.pair == msg.pair
            &&& config.lp_token == msg.lp_token
            &&& config.whitelisted_contracts == msg.whitelisted_contracts
            &&& config.distribution_schedule == msg.distribution_schedule
            &&& state.last_distributed == block_height
            &&& state.total_bond_amount == 0
            &&& state.global_reward_index.atomics == 0
            &&& response@ == action_response("instantiate"@)
        }),
{
    let response = make_response("instantiate");
    if !is_valid_schedule(&msg.distribution_schedule) {
        return Err(generic_err("invalid schedule"));
    }
    let config = Config {
        admin: sender,
        token: msg.token,
        pair: msg.pair,
        lp_token: msg.lp_token,
        whitelisted_contracts: msg.whitelisted_contracts,
        distribution_schedule: msg.distribution_schedule,
    };
    let state = State {
        last_distributed: block_height,
        total_bond_amount: 0,
        global_reward_index: Decimal::zero(),
    };
    Ok((config, state, response))
}

/// `bond` stays within 128 bits: the reward computations and both additions.
pub open spec fn bond_defined(
    config: Config,
    state: State,
    info: StakerInfo,
    block_height: u64,
    amount: u128,
) -> bool {
    let s1 = spec_compute_reward(state, config.distribution_schedule@, block_height);
    &&& compute_reward_defined(state, config.distribution_schedule@, block_height)
    &&& staker_reward_defined(info, s1)
    &&& state.total_bond_amount + amount <= u128::MAX
    &&& info.bond_amount + amount <= u128::MAX
}

/// Whether the rewards of `state` can be brought up to `block_height`
/// within 128 bits.
pub fn compute_reward_fits(config: &Config, state: &State, block_height: u64) -> (r: bool)
    ensures
        r == compute_reward_defined(*state, config.distribution_schedule@, block_height),
{
    index_growth_fits(
        state.global_reward_index.atomics,
        state.total_bond_amount,
        &config.distribution_schedule,
        state.last_distributed,
        block_height,
    )
}

/// Whether the rewards, and then the staker's reward, can be brought up to
/// `block_height` within 128 bits: the arithmetic of `unbond` and `withdraw`.
pub fn unbond_fits(config: &Config, state: &State, info: &StakerInfo, block_height: u64) -> (r:
    bool)
    ensures
        r == unbond_defined(*config, *state, *info, block_height),
{
    if !compute_reward_fits(config, state, block_height) {
        return false;
    }
    let mut s1 = *state;
    s1.compute_reward(config, block_height);
    reward_growth_fits(
        info.bond_amount,
        s1.global_reward_index.atomics,
        info.reward_index.atomics,
        info.pending_reward,
    )
}

/// Whether bonding `amount` stays within 128 bits: the arithmetic of `bond`.
pub fn bond_fits(config: &Config, state: &State, info: &StakerInfo, block_height: u64, amount: u128) -> (r:
    bool)
    ensures
        r == bond_defined(*config, *state, *info, block_height, amount),
{
    unbond_fits(config, state, info, block_height) && state.total_bond_amount <= u128::MAX - amount
        && info.bond_amount <= u128::MAX - amount
}

/// Bonds `amount` liquidity tokens for `sender_addr` (whose state is
/// `staker_info`). Rewards are distributed up to `block_height` and the
/// staker's reward is brought up to date before the bond grows. Only a sender
/// that the contract authorizes may bond (`sender_authorized`, which the
/// caller finds out from the chain).
pub fn bond(
    config: &Config,
    state: &mut State,
    staker_info: &mut StakerInfo,
    sender_authorized: bool,
    block_height: u64,
    sender_addr: String,
    amount: u128,
) -> (r: Result<Response, ContractError>)
    requires
        sender_authorized ==> bond_defined(
            *config,
            *old(state),
            *old(staker_info),
            block_height,
            amount,
        ),
    ensures
        ({
            let s1 = spec_compute_reward(*old(state), config.distribution_schedule@, block_height);
            &&& !sender_authorized ==> r is Err && is_generic_err(
                r->Err_0,
                "Can only called by wallet"@,
            )
            &&& sender_authorized && !staker_reward_ok(*old(staker_info), s1) ==> r is Err
                && r->Err_0 is Std && is_reward_underflow(r->Err_0->Std_0, *old(staker_info), s1)
            &&& r is Err ==> *final(state) == *old(state) && *final(staker_info) == *old(
                staker_info,
            )
            &&& sender_authorized && staker_reward_ok(*old(staker_info), s1) ==> {
                &&& r is Ok
                &&& *final(state) == State {
                    total_bond_amount: (s1.total_bond_amount + amount) as u128,
                    ..s1
                }
                &&& final(staker_info).owner == old(staker_info).owner
                &&& final(staker_info).reward_index == s1.global_reward_index
                &&& final(staker_info).pending_reward == spec_pending_after(
                    *old(staker_info),
                    s1,
                )
                &&& final(staker_info).bond_amount == old(staker_info).bond_amount + amount
                &&& r->Ok_0@ == with_attr(
                    with_attr(action_response("bond"@), "owner"@, sender_addr@),
                    "amount"@,
                    spec_decimal(amount as nat),
                )
            }
        }),
{
    let response = make_response("bond");
    if !sender_authorized {
        return Err(generic_err("Can only called by wallet"));
    }
    let mut new_state = *state;
    let mut new_info = StakerInfo {
        owner: staker_info.owner.clone(),
        reward_index: staker_info.reward_index,
        bond_amount: staker_info.bond_amount,
        pending_reward: staker_info.pending_reward,
    };
    new_state.compute_reward(config, block_height);
    if let Err(e) = new_info.compute_staker_reward(&new_state) {
        return Err(ContractError::Std(e));
    }
    new_state.total_bond_amount = new_state.total_bond_amount + amount;
    new_info.bond_amount = new_info.bond_amount + amount;
    *state = new_state;
    *staker_info = new_info;
    let response = response.add_attribute("owner", sender_addr);
    let response = response.add_attribute("amount", uint_to_string(amount));
    Ok(response)
}


/// Receives cw20 tokens with a hook message: only the liquidity token may
/// send, and it bonds the tokens for their sender.
pub fn receive_cw20(
    config: &Config,
    state: &mut State,
    staker_info: &mut StakerInfo,
    token_contract: &String,
    sender_authorized: bool,
    block_height: u64,
    cw20_sender: String,
    amount: u128,
    hook: Cw20HookMsg,
) -> (r: Result<Response, ContractError>)
    requires
        config.lp_token@ == token_contract@ && sender_authorized ==> bond_defined(
            *config,
            *old(state),
            *old(staker_info),
            block_height,
            amount,
        ),
    ensures
        config.lp_token@ != token_contract@ ==> r == Err::<Response, ContractError>(
            ContractError::Unauthorized,
        ) && *final(state) == *old(state) && *final(staker_info) == *old(staker_info),
        config.lp_token@ == token_contract@ ==> ({
            let s1 = spec_compute_reward(*old(state), config.distribution_schedule@, block_height);
            &&& !sender_authorized ==> r is Err && is_generic_err(
                r->Err_0,
                "Can only called by wallet"@,
            )
            &&& sender_authorized && !staker_reward_ok(*old(staker_info), s1) ==> r is Err
                && r->Err_0 is Std && is_reward_underflow(r->Err_0->Std_0, *old(staker_info), s1)
            &&& r is Err ==> *final(state) == *old(state) && *final(staker_info) == *old(
                staker_info,
            )
            &&& sender_authorized && staker_reward_ok(*old(staker_info), s1) ==> {
                &&& r is Ok
                &&& *final(state) == State {
                    total_bond_amount: (s1.total_bond_amount + amount) as u128,
                    ..s1
                }
                &&& final(staker_info).bond_amount == old(staker_info).bond_amount + amount
                &&& final(staker_info).pending_reward == spec_pending_after(
                    *old(staker_info),
                    s1,
                )
                &&& final(staker_info).reward_index == s1.global_reward_index
                &&& final(staker_info).owner == old(staker_info).owner
            }
        }),
{
    match hook {
        Cw20HookMsg::Bond => {
            if config.lp_token != *token_contract {
                return Err(ContractError::Unauthorized);
            }
            bond(config, state, staker_info, sender_authorized, block_height, cw20_sender, amount)
        },
    }
}

/// `unbond` stays within 128 bits.
pub open spec fn unbond_defined(
    config: Config,
    state: State,
    info: StakerInfo,
    block_height: u64,
) -> bool {
    let s1 = spec_compute_reward(state, config.distribution_schedule@, block_height);
    &&& compute_reward_defined(state, config.distribution_schedule@, block_height)
    &&& staker_reward_defined(info, s1)
}

/// Unbonds `amount` liquidity tokens of `sender` (whose state is
/// `staker_info`) and sends them back. Rewards are computed first. The
/// second component of the result says whether the staker's state is to be
/// removed: it is when nothing is bonded or pending any more.
pub fn unbond(
    config: &Config,
    state: &mut State,
    staker_info: &mut StakerInfo,
    block_height: u64,
    sender: String,
    amount: u128,
) -> (r: Result<(Response, bool), ContractError>)
    requires
        old(staker_info).bond_amount >= amount ==> unbond_defined(
            *config,
            *old(state),
            *old(staker_info),
            block_height,
        ),
    ensures
        r is Err ==> *final(state) == *old(state) && *final(staker_info) == *old(staker_info),
        old(staker_info).bond_amount < amount ==> r is Err && is_generic_err(
            r->Err_0,
            "Cannot unbond more than bond amount"@,
        ),
        ({
            let s1 = spec_compute_reward(*old(state), config.distribution_schedule@, block_height);
            old(staker_info).bond_amount >= amount ==> {
                &&& !staker_reward_ok(*old(staker_info), s1) ==> r is Err && r->Err_0 is Std
                    && is_reward_underflow(r->Err_0->Std_0, *old(staker_info), s1)
                &&& staker_reward_ok(*old(staker_info), s1) && s1.total_bond_amount < amount
                    ==> r is Err && r->Err_0 is Std && is_sub_overflow(
                    r->Err_0->Std_0,
                    s1.total_bond_amount,
                    amount,
                )
                &&& staker_reward_ok(*old(staker_info), s1) && s1.total_bond_amount >= amount
                    ==> {
                    &&& r is Ok
                    &&& *final(state) == State {
                        total_bond_amount: (s1.total_bond_amount - amount) as u128,
                        ..s1
                    }
                    &&& final(staker_info).owner == old(staker_info).owner
                    &&& final(staker_info).bond_amount == old(staker_info).bond_amount - amount
                    &&& final(staker_info).reward_index == s1.global_reward_index
                    &&& final(staker_info).pending_reward == spec_pending_after(
                        *old(staker_info),
                        s1,
                    )
                    &&& r->Ok_0.1 == (final(staker_info).pending_reward == 0
                        && final(staker_info).bond_amount == 0)
                    &&& r->Ok_0.0@ == transfer_response(
                        "unbond"@,
                        config.lp_token@,
                        sender@,
                        amount,
                    )
                }
            }
        }),
{
    if staker_info.bond_amount < amount {
        return Err(generic_err("Cannot unbond more than bond amount"));
    }
    let response = make_response("unbond");
    let mut new_state = *state;
    let mut new_info = StakerInfo {
        owner: staker_info.owner.clone(),
        reward_index: staker_info.reward_index,
        bond_amount: staker_info.bond_amount,
        pending_reward: staker_info.pending_reward,
    };
    new_state.compute_reward(config, block_height);
    if let Err(e) = new_info.compute_staker_reward(&new_state) {
        return Err(ContractError::Std(e));
    }
    new_state.total_bond_amount = match checked_sub(new_state.total_bond_amount, amount) {
        Ok(v) => v,
        Err(e) => {
            return Err(ContractError::Std(e));
        },
    };
    new_info.bond_amount = new_info.bond_amount - amount;
    let remove = new_info.pending_reward == 0 && new_info.bond_amount == 0;
    *state = new_state;
    *staker_info = new_info;
    let response = response.add_message(
        config.lp_token.clone(),
        ExecuteBody::Cw20Transfer { recipient: sender.clone(), amount },
    );
    let response = response.add_attribute("owner", sender);
    let response = response.add_attribute("amount", uint_to_string(amount));
    Ok((response, remove))
}

/// Sends `sender` its pending reward, after rewards are computed up to
/// `block_height`. The second component of the result says whether the
/// staker's state is to be removed: it is when nothing is bonded.
pub fn withdraw(
    config: &Config,
    state: &mut State,
    staker_info: &mut StakerInfo,
    block_height: u64,
    sender: String,
) -> (r: Result<(Response, bool), ContractError>)
    requires
        unbond_defined(*config, *old(state), *old(staker_info), block_height),
    ensures
        r is Err ==> *final(state) == *old(state) && *final(staker_info) == *old(staker_info),
        ({
            let s1 = spec_compute_reward(*old(state), config.distribution_schedule@, block_height);
            &&& !staker_reward_ok(*old(staker_info), s1) ==> r is Err && r->Err_0 is Std
                && is_reward_underflow(r->Err_0->Std_0, *old(staker_info), s1)
            &&& staker_reward_ok(*old(staker_info), s1) ==> {
                &&& r is Ok
                &&& *final(state) == s1
                &&& final(staker_info).owner == old(staker_info).owner
                &&& final(staker_info).bond_amount == old(staker_info).bond_amount
                &&& final(staker_info).reward_index == s1.global_reward_index
                &&& final(staker_info).pending_reward == 0
                &&& r->Ok_0.1 == (old(staker_info).bond_amount == 0)
                &&& r->Ok_0.0@ == transfer_response(
                    "withdraw"@,
                    config.token@,
                    sender@,
                    spec_pending_after(*old(staker_info), s1) as u128,
                )
            }
        }),
{
    let response = make_response("withdraw");
    let mut new_state = *state;
    let mut new_info = StakerInfo {
        owner: staker_info.owner.clone(),
        reward_index: staker_info.reward_index,
        bond_amount: staker_info.bond_amount,
        pending_reward: staker_info.pending_reward,
    };
    new_state.compute_reward(config, block_height);
    if let Err(e) = new_info.compute_staker_reward(&new_state) {
        return Err(ContractError::Std(e));
    }
    let amount = new_info.pending_reward;
    new_info.pending_reward = 0;
    let remove = new_info.bond_amount == 0;
    *state = new_state;
    *staker_info = new_info;
    let response = response.add_message(
        config.token.clone(),
        ExecuteBody::Cw20Transfer { recipient: sender.clone(), amount },
    );
    let response = response.add_attribute("owner", sender);
    let response = response.add_attribute("amount", uint_to_string(amount));
    Ok((response, remove))
}

/// Sends `amount` reward tokens to `recipient`; only the admin may.
pub fn migrate_reward(config: &Config, sender: &String, recipient: String, amount: u128) -> (r:
    Result<Response, ContractError>)
    ensures
        config.admin@ != sender@ ==> r == Err::<Response, ContractError>(
            ContractError::Unauthorized,
        ),
        config.admin@ == sender@ ==> r is Ok && r->Ok_0@ == with_attr(
            with_attr(
                with_msg(
                    action_response("migrate_reward"@),
                    transfer_msg(config.token@, recipient@, amount),
                ),
                "recipient"@,
                recipient@,
            ),
            "amount"@,
            spec_decimal(amount as nat),
        ),
{
    let response = make_response("migrate_reward");
    if config.admin != *sender {
        return Err(ContractError::Unauthorized);
    }
    let response = response.add_message(
        config.token.clone(),
        ExecuteBody::Cw20Transfer { recipient: recipient.clone(), amount },
    );
    let response = response.add_attribute("recipient", recipient);
    let response = response.add_attribute("amount", uint_to_string(amount));
    Ok(response)
}

/// The staker's state as of `block_height`: rewards are computed up to that
/// height without being stored.
pub fn query_staker_info(
    config: &Config,
    state: &State,
    staker_info: &StakerInfo,
    block_height: u64,
    staker_addr: String,
) -> (r: Result<StakerInfoResponse, StdError>)
    requires
        unbond_defined(*config, *state, *staker_info, block_height),
    ensures
        ({
            let s1 = spec_compute_reward(*state, config.distribution_schedule@, block_height);
            &&& !staker_reward_ok(*staker_info, s1) ==> r is Err && is_reward_underflow(
                r->Err_0,
                *staker_info,
                s1,
            )
            &&& staker_reward_ok(*staker_info, s1) ==> r is Ok && r->Ok_0.staker_addr
                == staker_addr && r->Ok_0.bond_amount == staker_info.bond_amount
                && r->Ok_0.reward_index == s1.global_reward_index && r->Ok_0.pending_reward
                == spec_pending_after(*staker_info, s1)
        }),
{
    let mut new_state = *state;
    let mut new_info = StakerInfo {
        owner: staker_info.owner.clone(),
        reward_index: staker_info.reward_index,
        bond_amount: staker_info.bond_amount,
        pending_reward: staker_info.pending_reward,
    };
    new_state.compute_reward(config, block_height);
    if let Err(e) = new_info.compute_staker_reward(&new_state) {
        return Err(e);
    }
    Ok(
        StakerInfoResponse {
            staker_addr,
            reward_index: new_info.reward_index,
            bond_amount: new_info.bond_amount,
            pending_reward: new_info.pending_reward,
        },
    )
}

/// The response of `update_config` for the fields given.
pub open spec fn update_config_response(
    token: bool,
    pair: bool,
    lp_token: bool,
    admin: bool,
    whitelisted: bool,
    schedule: bool,
) -> ResponseView {
    with_flag(
        with_flag(
            with_flag(
                with_flag(
                    with_flag(
                        with_flag(action_response("update_config"@), token, "is_updated_token"@),
                        pair,
                        "is_updated_pair"@,
                    ),
                    lp_token,
                    "is_updated_lp_token"@,
                ),
                admin,
                "is_updated_admin"@,
            ),
            whitelisted,
            "is_updated_whitelisted_contracts"@,
        ),
        schedule,
        "is_updated_distribution_schedule"@,
    )
}

/// Updates the fields of the configuration that are given; only the admin
/// may. A new admin is only nominated (`admin_nominee`) and takes over when it
/// approves. A new schedule must be valid, and the rewards of the old schedule
/// are distributed up to `block_height` before it takes effect.
pub fn update_config(
    config: &mut Config,
    state: &mut State,
    admin_nominee: &mut Option<String>,
    sender: &String,
    block_height: u64,
    token: Option<String>,
    pair: Option<String>,
    lp_token: Option<String>,
    admin: Option<String>,
    whitelisted_contracts: Option<Vec<String>>,
    distribution_schedule: Option<Vec<ScheduleEntry>>,
) -> (r: Result<Response, ContractError>)
    requires
        old(config).admin@ == sender@ && distribution_schedule is Some ==> compute_reward_defined(
            *old(state),
            old(config).distribution_schedule@,
            block_height,
        ),
    ensures
        r is Err ==> *final(config) == *old(config) && *final(state) == *old(state)
            && *final(admin_nominee) == *old(admin_nominee),
        old(config).admin@ != sender@ ==> r == Err::<Response, ContractError>(
            ContractError::Unauthorized,
        ),
        old(config).admin@ == sender@ && distribution_schedule is Some && !spec_valid_schedule(
            distribution_schedule->Some_0@,
        ) ==> r is Err && is_generic_err(r->Err_0, "invalid schedule"@),
        old(config).admin@ == sender@ && (distribution_schedule is Some ==> spec_valid_schedule(
            distribution_schedule->Some_0@,
        )) ==> {
            &&& r is Ok
            &&& final(config).token == (if token is Some {
                token->Some_0
            } else {
                old(config).token
            })
            &&& final(config).pair == (if pair is Some {
                pair->Some_0
            } else {
                old(config).pair
            })
            &&& final(config).lp_token == (if lp_token is Some {
                lp_token->Some_0
            } else {
                old(config).lp_token
            })
            &&& final(config).admin == old(config).admin
            &&& *final(admin_nominee) == (if admin is Some {
                admin
            } else {
                *old(admin_nominee)
            })
            &&& final(config).whitelisted_contracts == (if whitelisted_contracts is Some {
                whitelisted_contracts->Some_0
            } else {
                old(config).whitelisted_contracts
            })
            &&& final(config).distribution_schedule == (if distribution_schedule is Some {
                distribution_schedule->Some_0
            } else {
                old(config).distribution_schedule
            })
            &&& *final(state) == (if distribution_schedule is Some {
                spec_compute_reward(*old(state), old(config).distribution_schedule@, block_height)
            } else {
                *old(state)
            })
            &&& r->Ok_0@ == update_config_response(
                token is Some,
                pair is Some,
                lp_token is Some,
                admin is Some,
                whitelisted_contracts is Some,
                distribution_schedule is Some,
            )
        },
{
    let mut response = make_response("update_config");
    if config.admin != *sender {
        return Err(ContractError::Unauthorized);
    }
    let mut new_state = *state;
    if let Some(schedule) = &distribution_schedule {
        new_state.compute_reward(config, block_height);
        if !is_valid_schedule(schedule) {
            return Err(generic_err("invalid schedule"));
        }
    }
    if let Some(token) = token {
        config.token = token;
        response = response.add_flag("is_updated_token");
    }
    if let Some(pair) = pair {
        config.pair = pair;
        response = response.add_flag("is_updated_pair");
    }
    if let Some(lp_token) = lp_token {
        config.lp_token = lp_token;
        response = response.add_flag("is_updated_lp_token");
    }
    if let Some(admin) = admin {
        *admin_nominee = Some(admin);
        response = response.add_flag("is_updated_admin");
    }
    if let Some(whitelisted_contracts) = whitelisted_contracts {
        config.whitelisted_contracts = whitelisted_contracts;
        response = response.add_flag("is_updated_whitelisted_contracts");
    }
    if let Some(schedule) = distribution_schedule {
        config.distribution_schedule = schedule;
        response = response.add_flag("is_updated_distribution_schedule");
    }
    *state = new_state;
    Ok(response)
}

/// The nominated admin takes over the contract; only the nominee may call,
/// and the nomination is then cleared.
pub fn approve_admin_nominee(
    config: &mut Config,
    admin_nominee: &mut Option<String>,
    sender: &String,
) -> (r: Result<Response, ContractError>)
    ensures
        !((*old(admin_nominee)) is Some && (*old(admin_nominee))->Some_0@ == sender@) ==> r
            == Err::<Response, ContractError>(ContractError::Unauthorized) && *final(config)
            == *old(config) && *final(admin_nominee) == *old(admin_nominee),
        (*old(admin_nominee)) is Some && (*old(admin_nominee))->Some_0@ == sender@ ==> r is Ok
            && *final(config) == (Config { admin: (*old(admin_nominee))->Some_0, ..*old(config) })
            && (*final(admin_nominee)) is None && r->Ok_0@ == with_flag(
            action_response("approve_admin_nominee"@),
            true,
            "is_updated_admin"@,
        ),
{
    let nominee = match admin_nominee {
        Some(n) => n.clone(),
        None => {
            return Err(ContractError::Unauthorized);
        },
    };
    if nominee != *sender {
        return Err(ContractError::Unauthorized);
    }
    config.admin = nominee;
    *admin_nominee = None;
    Ok(make_response("approve_admin_nominee").add_flag("is_updated_admin"))
}

/// The answer to a config query.
#[derive(Clone, Debug, PartialEq, Eq)]
pub struct ConfigResponse {
    pub admin: String,
    pub token: String,
    pub pair: String,
    pub lp_token: String,
    pub whitelisted_contracts: Vec<String>,
    pub distribution_schedule: Vec<ScheduleEntry>,
}

/// The configuration as a query answers it.
pub fn query_config(config: &Config) -> (r: ConfigResponse)
    ensures
        r.admin == config.admin,
        r.token == config.token,
        r.pair == config.pair,
        r.lp_token == config.lp_token,
        r.whitelisted_contracts@ == config.whitelisted_contracts@,
        r.distribution_schedule@ == config.distribution_schedule@,
{
    ConfigResponse {
        admin: config.admin.clone(),
        token: config.token.clone(),
        pair: config.pair.clone(),
        lp_token: config.lp_token.clone(),
        whitelisted_contracts: config.whitelisted_contracts.clone(),
        distribution_schedule: copy_schedule(&config.distribution_schedule),
    }
}

/// The reward state, with the rewards computed up to `block_height` when
/// one is given (nothing is stored).
pub fn query_state(config: &Config, state: &State, block_height: Option<u64>) -> (r: State)
    requires
        block_height is Some ==> compute_reward_defined(
            *state,
            config.distribution_schedule@,
            block_height->Some_0,
        ),
    ensures
        block_height is None ==> r == *state,
        block_height is Some ==> r == spec_compute_reward(
            *state,
            config.distribution_schedule@,
            block_height->Some_0,
        ),
{
    let mut s = *state;
    if let Some(h) = block_height {
        s.compute_reward(config, h);
    }
    s
}

/// Computing the rewards twice at the same height is computing them once:
/// the second computation finds no blocks to pay for.
pub proof fn law_compute_reward_idempotent(s: State, schedule: Seq<ScheduleEntry>, height: u64)
    ensures
        spec_compute_reward(spec_compute_reward(s, schedule, height), schedule, height)
            == spec_compute_reward(s, schedule, height),
{
    law_no_reward_at_same_height(schedule, height);
    let s1 = spec_compute_reward(s, schedule, height);
    if s1.total_bond_amount != 0 {
        assert(spec_ratio_atomics(0, s1.total_bond_amount as int) == 0);
    }
}

/// A staker whose reward was just brought up to the index of `s` has
/// nothing more to collect at that index, whatever it bonds: its pending
/// reward stays as it is.
pub proof fn law_staker_reward_idempotent(before: StakerInfo, after: StakerInfo, s: State, bond: u128)
    requires
        reward_applied(before, after, s),
    ensures
        spec_pending_after(StakerInfo { bond_amount: bond, ..after }, s) == after.pending_reward,
{
}

/// Bonding `amount` and unbonding it again at the same height leaves the
/// reward state as the rewards computation alone would, and the staker with
/// the bond it had and the reward it had earned.
pub proof fn law_bond_unbond_round_trip(
    s: State,
    info: StakerInfo,
    schedule: Seq<ScheduleEntry>,
    height: u64,
    amount: u128,
)
    requires
        spec_compute_reward(s, schedule, height).total_bond_amount + amount <= u128::MAX,
        info.bond_amount + amount <= u128::MAX,
    ensures
        ({
            let s1 = spec_compute_reward(s, schedule, height);
            let bonded = State { total_bond_amount: (s1.total_bond_amount + amount) as u128, ..s1 };
            let s2 = spec_compute_reward(bonded, schedule, height);
            let staker1 = StakerInfo {
                reward_index: s1.global_reward_index,
                pending_reward: spec_pending_after(info, s1) as u128,
                bond_amount: (info.bond_amount + amount) as u128,
                ..info
            };
            &&& State { total_bond_amount: (s2.total_bond_amount - amount) as u128, ..s2 } == s1
            &&& s2.global_reward_index == s1.global_reward_index
            &&& spec_pending_after(staker1, s2) == staker1.pending_reward
            &&& staker1.bond_amount - amount == info.bond_amount
        }),
{
    law_no_reward_at_same_height(schedule, height);
    let s1 = spec_compute_reward(s, schedule, height);
    let bonded = State { total_bond_amount: (s1.total_bond_amount + amount) as u128, ..s1 };
    if bonded.total_bond_amount != 0 {
        assert(spec_ratio_atomics(0, bonded.total_bond_amount as int) == 0);
    }
}

/// The bonded amounts of `bonds`, added up.
pub open spec fn total_bonds(bonds: Seq<u128>) -> int
    decreases bonds.len(),
{
    if bonds.len() == 0 {
        0
    } else {
        total_bonds(bonds.drop_last()) + bonds.last()
    }
}

/// What the stakers with the bonds `bonds` have earned at the reward index
/// `atomics`, added up.
pub open spec fn total_earned(bonds: Seq<u128>, atomics: u128) -> int
    decreases bonds.len(),
{
    if bonds.len() == 0 {
        0
    } else {
        total_earned(bonds.drop_last(), atomics) + earned(bonds.last(), atomics)
    }
}

proof fn lemma_total_earned_at_most_pooled(bonds: Seq<u128>, atomics: u128)
    ensures
        total_bonds(bonds) >= 0,
        total_earned(bonds, atomics) <= spec_mul_decimal(total_bonds(bonds), atomics as int),
    decreases bonds.len(),
{
    if bonds.len() > 0 {
        lemma_total_earned_at_most_pooled(bonds.drop_last(), atomics);
        let k: int = 1_000_000_000_000_000_000;
        let x = total_bonds(bonds.drop_last()) * atomics;
        let y = bonds.last() * atomics;
        assert(x >= 0 && y >= 0) by (nonlinear_arith)
            requires
                x == total_bonds(bonds.drop_last()) * atomics,
                y == bonds.last() * atomics,
                total_bonds(bonds.drop_last()) >= 0,
                bonds.last() >= 0,
                atomics >= 0,
        ;
        lemma_div_mul_le(x, k);
        lemma_div_mul_le(y, k);
        assert((x / k + y / k) * k <= x + y) by (nonlinear_arith)
            requires
                (x / k) * k <= x,
                (y / k) * k <= y,
        ;
        lemma_le_div(x / k + y / k, k, x + y);
        assert(total_bonds(bonds) * atomics == x + y) by (nonlinear_arith)
            requires
                total_bonds(bonds) == total_bonds(bonds.drop_last()) + bonds.last(),
                x == total_bonds(bonds.drop_last()) * atomics,
                y == bonds.last() * atomics,
        ;
    }
}

/// A reward computation raises the reward index by no more than the amount
/// the schedule paid, spread over the bonded amount.
pub proof fn law_index_growth_bounded(s: State, schedule: Seq<ScheduleEntry>, height: u64)
    requires
        s.total_bond_amount != 0,
        compute_reward_defined(s, schedule, height),
    ensures
        (spec_compute_reward(s, schedule, height).global_reward_index.atomics
            - s.global_reward_index.atomics) * s.total_bond_amount <= schedule_reward(
            schedule,
            s.last_distributed,
            height,
        ) * 1_000_000_000_000_000_000,
{
    lemma_schedule_reward_nonneg(schedule, s.last_distributed, height);
    let paid = schedule_reward(schedule, s.last_distributed, height);
    let k: int = 1_000_000_000_000_000_000;
    assert(paid * k >= 0) by (nonlinear_arith)
        requires
            paid >= 0,
            k > 0,
    ;
    lemma_div_mul_le(paid * k, s.total_bond_amount as int);
}

/// The stakers never earn more than was paid out: when the reward index,
/// times everything bonded, stays within the amount distributed, the rewards
/// of the bonds added up stay within it as well.
pub proof fn law_rewards_within_distribution(bonds: Seq<u128>, atomics: u128, distributed: int)
    requires
        distributed >= 0,
        total_bonds(bonds) * atomics <= distributed * 1_000_000_000_000_000_000,
    ensures
        total_earned(bonds, atomics) <= distributed,
{
    lemma_total_earned_at_most_pooled(bonds, atomics);
    let k: int = 1_000_000_000_000_000_000;
    vstd::arithmetic::div_mod::lemma_div_is_ordered(total_bonds(bonds) * atomics, distributed * k, k);
    assert((distributed * k) / k == distributed) by (nonlinear_arith)
        requires
            distributed >= 0,
            k > 0,
    {
        vstd::arithmetic::div_mod::lemma_div_multiples_vanish(distributed, k);
    }
}

} // verus!
