//! The staking operations of the governance contract.
//!
//! Each operation takes the stored values that the contract call reads and
//! returns the values to store; on an error nothing is stored.
use vstd::prelude::*;
use crate::errors::{
    ContractError, checked_sub, generic_err, is_generic_err, is_sub_overflow,
};
use crate::governance::common::{ContractConfig, load_available_balance};
use crate::governance::poll::PollState;
use crate::governance::staking::{
    StakerState, StakingConfig, StakingState, spec_balance, spec_kept_votes, spec_max_vote,
};
use crate::math::{
    checked_multiply_ratio, lemma_div_mul_le, lemma_le_div, multiply_ratio, spec_multiply_ratio,
};
use crate::messages::{
    ExecuteBody, ExecuteBodyView, Response, ResponseView, action_response, make_response,
    plain_msg, spec_decimal, transfer_msg, uint_to_string, with_attr, with_flag, with_msg,
};

verus! {

/// The instantiation message of staking.
#[derive(Clone, Debug, PartialEq, Eq)]
pub struct StakingConfigInitMsg {
    pub distributor: Option<String>,
}

/// Sets up staking with no shares.
pub fn instantiate(msg: StakingConfigInitMsg) -> (r: (StakingConfig, StakingState, Response))
    ensures
        r.0.distributor == msg.distributor,
        r.1.total_share == 0,
        r.2@ == action_response("instantiate"@),
{
    let response = make_response("instantiate");
    (StakingConfig { distributor: msg.distributor }, StakingState { total_share: 0 }, response)
}

/// Sets the distributor, when one is given; only the contract itself may.
pub fn update_staking_config(
    staking_config: &mut StakingConfig,
    contract_address: &String,
    sender: &String,
    distributor: Option<String>,
) -> (r: Result<Response, ContractError>)
    ensures
        contract_address@ != sender@ ==> r == Err::<Response, ContractError>(
            ContractError::Unauthorized,
        ) && *final(staking_config) == *old(staking_config),
        contract_address@ == sender@ ==> r is Ok && final(staking_config).distributor == (
        if distributor is Some {
            distributor
        } else {
            old(staking_config).distributor
        }) && r->Ok_0@ == with_flag(
            action_response("update_staking_config"@),
            distributor is Some,
            "is_updated_distributor"@,
        ),
{
    if *contract_address != *sender {
        return Err(ContractError::Unauthorized);
    }
    let mut response = make_response("update_staking_config");
    if let Some(distributor) = distributor {
        staking_config.distributor = Some(distributor);
        response = response.add_flag("is_updated_distributor");
    }
    Ok(response)
}

/// `base` with the distributor's `Distribute` first, when there is a distributor.
pub open spec fn with_distribute(base: ResponseView, distributor: Option<String>) -> ResponseView {
    if distributor is Some {
        with_msg(base, plain_msg(distributor->Some_0@, ExecuteBodyView::Distribute))
    } else {
        base
    }
}

/// The shares that `amount` tokens buy when `total_share` shares stand for
/// `available` tokens: as many shares as tokens while there are no shares or
/// no tokens, else the same share of the shares as of the tokens.
pub open spec fn spec_stake_share(amount: u128, total_share: u128, available: int) -> int {
    if available == 0 || total_share == 0 {
        amount as int
    } else {
        spec_multiply_ratio(amount as int, total_share as int, available)
    }
}

/// `stake_governance_token_hook` stays within 128 bits.
pub open spec fn stake_hook_defined(
    staking_state: StakingState,
    staker_state: StakerState,
    available: int,
    amount: u128,
) -> bool {
    available >= 0 ==> {
        &&& spec_stake_share(amount, staking_state.total_share, available) <= u128::MAX
        &&& staking_state.total_share + spec_stake_share(
            amount,
            staking_state.total_share,
            available,
        ) <= u128::MAX
        &&& staker_state.share + spec_stake_share(amount, staking_state.total_share, available)
            <= u128::MAX
    }
}

/// Whether staking `amount` tokens, received into `contract_balance`, stays
/// within 128 bits.
pub fn stake_fits(
    staking_state: &StakingState,
    poll_state: &PollState,
    staker_state: &StakerState,
    contract_balance: u128,
    amount: u128,
) -> (r: bool)
    ensures
        r == stake_hook_defined(
            *staking_state,
            *staker_state,
            contract_balance - poll_state.total_deposit - amount,
            amount,
        ),
{
    if contract_balance < poll_state.total_deposit || contract_balance - poll_state.total_deposit
        < amount {
        return true;
    }
    let available = contract_balance - poll_state.total_deposit - amount;
    let share = if available == 0 || staking_state.total_share == 0 {
        amount
    } else {
        match checked_multiply_ratio(amount, staking_state.total_share, available) {
            Some(v) => v,
            None => {
                return false;
            },
        }
    };
    staking_state.total_share <= u128::MAX - share && staker_state.share <= u128::MAX - share
}

/// `r` is the outcome of staking `amount` tokens for `staker` when
/// `available` tokens stood for the shares before them: the shares they buy
/// are added to the total and to the staker, and `base` gets the staker, the
/// shares and the amount as attributes.
pub open spec fn staked(
    r: (StakingState, StakerState, Response),
    staking_state: StakingState,
    staker_state: StakerState,
    available: int,
    staker: Seq<char>,
    amount: u128,
    base: ResponseView,
) -> bool {
    let share = spec_stake_share(amount, staking_state.total_share, available);
    &&& r.0.total_share == staking_state.total_share + share
    &&& r.1.share == staker_state.share + share
    &&& r.1.address == staker_state.address
    &&& r.1.votes == staker_state.votes
    &&& r.2@ == with_attr(
        with_attr(with_attr(base, "sender"@, staker), "share"@, spec_decimal(share as nat)),
        "amount"@,
        spec_decimal(amount as nat),
    )
}

/// `r` is what staking `amount` tokens, already received into
/// `contract_balance`, gives: the underflow when the balance does not cover
/// the deposits, or the deposits and the amount, and otherwise the staking.
pub open spec fn stake_outcome(
    r: Result<(StakingState, StakerState, Response), ContractError>,
    staking_state: StakingState,
    poll_state: PollState,
    staker_state: StakerState,
    contract_balance: u128,
    staker: Seq<char>,
    amount: u128,
    base: ResponseView,
) -> bool {
    if contract_balance < poll_state.total_deposit {
        r is Err && r->Err_0 is Std && is_sub_overflow(
            r->Err_0->Std_0,
            contract_balance,
            poll_state.total_deposit,
        )
    } else if contract_balance - poll_state.total_deposit < amount {
        r is Err && r->Err_0 is Std && is_sub_overflow(
            r->Err_0->Std_0,
            (contract_balance - poll_state.total_deposit) as u128,
            amount,
        )
    } else {
        r is Ok && staked(
            r->Ok_0,
            staking_state,
            staker_state,
            contract_balance - poll_state.total_deposit - amount,
            staker,
            amount,
            base,
        )
    }
}

/// Adds the shares that `amount` received tokens buy to the total and to the
/// staker, and their attributes to `response`.
fn add_stake(
    response: Response,
    staking_state: &StakingState,
    poll_state: &PollState,
    staker_state: StakerState,
    contract_balance: u128,
    staker: String,
    amount: u128,
) -> (r: Result<(StakingState, StakerState, Response), ContractError>)
    requires
        stake_hook_defined(
            *staking_state,
            staker_state,
            contract_balance - poll_state.total_deposit - amount,
            amount,
        ),
    ensures
        stake_outcome(
            r,
            *staking_state,
            *poll_state,
            staker_state,
            contract_balance,
            staker@,
            amount,
            response@,
        ),
{
    let mut response = response;
    let available = match load_available_balance(contract_balance, poll_state) {
        Ok(v) => v,
        Err(e) => {
            return Err(ContractError::Std(e));
        },
    };
    let contract_available_balance = match checked_sub(available, amount) {
        Ok(v) => v,
        Err(e) => {
            return Err(ContractError::Std(e));
        },
    };
    let share = if contract_available_balance == 0 || staking_state.total_share == 0 {
        amount
    } else {
        multiply_ratio(amount, staking_state.total_share, contract_available_balance)
    };
    let new_staking_state = StakingState { total_share: staking_state.total_share + share };
    let mut staker_state = staker_state;
    staker_state.share = staker_state.share + share;
    response = response.add_attribute("sender", staker);
    response = response.add_attribute("share", uint_to_string(share));
    response = response.add_attribute("amount", uint_to_string(amount));
    Ok((new_staking_state, staker_state, response))
}

/// Stakes `amount` governance tokens sent by `staker`, which the contract has
/// received into `contract_balance`: only the governance token may call,
/// with a non-zero amount. Without a distributor the tokens buy shares at
/// once, at the rate of the tokens available before them, and the result
/// holds the staking state and the staker's state to store. With a
/// distributor its rewards are distributed first and the contract then
/// stakes through its own `stake_governance_token_hook`; the states come back
/// unchanged.
pub fn stake_governance_token(
    contract_config: &ContractConfig,
    staking_config: &StakingConfig,
    contract_address: &String,
    sender: &String,
    staking_state: &StakingState,
    poll_state: &PollState,
    staker_state: StakerState,
    contract_balance: u128,
    staker: String,
    amount: u128,
) -> (r: Result<(StakingState, StakerState, Response), ContractError>)
    requires
        contract_config.governance_token@ == sender@ && amount != 0
            && staking_config.distributor is None ==> stake_hook_defined(
            *staking_state,
            staker_state,
            contract_balance - poll_state.total_deposit - amount,
            amount,
        ),
    ensures
        contract_config.governance_token@ != sender@ ==> r == Err::<
            (StakingState, StakerState, Response),
            ContractError,
        >(ContractError::Unauthorized),
        contract_config.governance_token@ == sender@ && amount == 0 ==> r is Err
            && is_generic_err(r->Err_0, "Insufficient funds sent"@),
        contract_config.governance_token@ == sender@ && amount != 0
            && staking_config.distributor is Some ==> r is Ok && r->Ok_0.0 == *staking_state
            && r->Ok_0.1 == staker_state && r->Ok_0.2@ == with_msg(
            with_distribute(
                action_response("stake_governance_token"@),
                staking_config.distributor,
            ),
            plain_msg(
                contract_address@,
                ExecuteBodyView::StakeGovernanceTokenHook { staker: staker@, amount },
            ),
        ),
        contract_config.governance_token@ == sender@ && amount != 0
            && staking_config.distributor is None ==> stake_outcome(
            r,
            *staking_state,
            *poll_state,
            staker_state,
            contract_balance,
            staker@,
            amount,
            action_response("stake_governance_token"@),
        ),
{
    if !contract_config.is_governance_token(sender) {
        return Err(ContractError::Unauthorized);
    }
    if amount == 0 {
        return Err(generic_err("Insufficient funds sent"));
    }
    let mut response = make_response("stake_governance_token");
    match &staking_config.distributor {
        Some(distributor) => {
            response = response.add_message(distributor.clone(), ExecuteBody::Distribute);
            response = response.add_message(
                contract_address.clone(),
                ExecuteBody::StakeGovernanceTokenHook { staker, amount },
            );
            Ok((*staking_state, staker_state, response))
        },
        None => add_stake(
            response,
            staking_state,
            poll_state,
            staker_state,
            contract_balance,
            staker,
            amount,
        ),
    }
}

/// Stakes `amount` governance tokens, which the contract has received, for
/// `staker` (whose state is `staker_state`); only the contract itself may
/// call. The tokens buy shares at the rate of the tokens available before
/// them. The result holds the staking state and the staker's state to store.
pub fn stake_governance_token_hook(
    contract_address: &String,
    sender: &String,
    staking_state: &StakingState,
    poll_state: &PollState,
    staker_state: StakerState,
    contract_balance: u128,
    staker: String,
    amount: u128,
) -> (r: Result<(StakingState, StakerState, Response), ContractError>)
    requires
        contract_address@ == sender@ && amount != 0 ==> stake_hook_defined(
            *staking_state,
            staker_state,
            contract_balance - poll_state.total_deposit - amount,
            amount,
        ),
    ensures
        contract_address@ != sender@ ==> r == Err::<
            (StakingState, StakerState, Response),
            ContractError,
        >(ContractError::Unauthorized),
        contract_address@ == sender@ && amount == 0 ==> r is Err && is_generic_err(
            r->Err_0,
            "Insufficient funds sent"@,
        ),
        contract_address@ == sender@ && amount != 0 ==> stake_outcome(
            r,
            *staking_state,
            *poll_state,
            staker_state,
            contract_balance,
            staker@,
            amount,
            action_response("stake_governance_token_hook"@),
        ),
{
    if *contract_address != *sender {
        return Err(ContractError::Unauthorized);
    }
    if amount == 0 {
        return Err(generic_err("Insufficient funds sent"));
    }
    let response = make_response("stake_governance_token_hook");
    add_stake(response, staking_state, poll_state, staker_state, contract_balance, staker, amount)
}

/// Asks to unstake `amount` governance tokens (all unlocked ones when no
/// amount is given) for the sender: the rewards of the distributor are
/// distributed first, then the contract calls its own
/// `unstake_governance_token_hook`.
pub fn unstake_governance_token(
    staking_config: &StakingConfig,
    contract_address: &String,
    sender: String,
    amount: Option<u128>,
) -> (r: Response)
    ensures
        r@ == with_msg(
            with_distribute(
                action_response("stake_governance_token"@),
                staking_config.distributor,
            ),
            plain_msg(
                contract_address@,
                ExecuteBodyView::UnstakeGovernanceTokenHook { staker: sender@, amount },
            ),
        ),
{
    let mut response = make_response("stake_governance_token");
    if let Some(distributor) = &staking_config.distributor {
        response = response.add_message(distributor.clone(), ExecuteBody::Distribute);
    }
    response = response.add_message(
        contract_address.clone(),
        ExecuteBody::UnstakeGovernanceTokenHook { staker: sender, amount },
    );
    response
}

/// The shares locked by the staker's votes: the largest vote, in shares.
pub open spec fn spec_locked_share(locked_balance: u128, total_share: u128, available: int) -> int {
    spec_multiply_ratio(locked_balance as int, total_share as int, available)
}

/// The shares withdrawn: those worth `amount` (at least one), or all unlocked
/// shares when no amount is given.
pub open spec fn spec_withdraw_share(
    amount: Option<u128>,
    user_share: u128,
    locked_share: int,
    total_share: u128,
    available: int,
) -> int {
    match amount {
        Some(v) => {
            let s = spec_multiply_ratio(v as int, total_share as int, available);
            if s > 1 {
                s
            } else {
                1
            }
        },
        None => user_share - locked_share,
    }
}

/// The tokens withdrawn: `amount`, or the worth of the withdrawn shares.
pub open spec fn spec_withdraw_amount(
    amount: Option<u128>,
    withdraw_share: int,
    total_share: u128,
    available: int,
) -> int {
    match amount {
        Some(v) => v as int,
        None => spec_multiply_ratio(withdraw_share, available, total_share as int),
    }
}

/// `unstake_governance_token_hook` stays within 128 bits, divides by
/// non-zero amounts and unwraps no error, for the staker's votes after the
/// votes on ended polls are dropped (`votes`).
pub open spec fn unstake_hook_defined(
    staking_state: StakingState,
    user_share: u128,
    votes: Seq<(u64, crate::governance::poll::VoteInfo)>,
    available: int,
    amount: Option<u128>,
) -> bool {
    let total = staking_state.total_share;
    let locked = spec_locked_share(spec_max_vote(votes), total, available);
    let withdraw = spec_withdraw_share(amount, user_share, locked, total, available);
    available >= 0 ==> {
        &&& available != 0
        &&& locked <= u128::MAX
        &&& amount is Some ==> spec_multiply_ratio(amount->Some_0 as int, total as int, available)
            <= u128::MAX
        &&& amount is None ==> locked <= user_share && total != 0 && spec_withdraw_amount(
            amount,
            withdraw,
            total,
            available,
        ) <= u128::MAX
        &&& locked + withdraw <= u128::MAX
    }
}

/// Whether unstaking `amount` tokens (all unlocked ones when none is given)
/// for the staker `staker_state` stays within 128 bits, divides by non-zero
/// amounts and unwraps no error; `in_progress[i]` tells whether the poll of
/// the `i`-th vote is still in progress.
pub fn unstake_fits(
    staking_state: &StakingState,
    poll_state: &PollState,
    staker_state: StakerState,
    in_progress: &Vec<bool>,
    contract_balance: u128,
    amount: Option<u128>,
) -> (r: bool)
    requires
        in_progress@.len() == staker_state.votes@.len(),
    ensures
        r == unstake_hook_defined(
            *staking_state,
            staker_state.share,
            spec_kept_votes(staker_state.votes@, in_progress@),
            contract_balance - poll_state.total_deposit,
            amount,
        ),
{
    if contract_balance < poll_state.total_deposit {
        return true;
    }
    let available = contract_balance - poll_state.total_deposit;
    if available == 0 {
        return false;
    }
    let user_share = staker_state.share;
    let mut kept = staker_state;
    kept.clean_votes(in_progress);
    let locked_balance = kept.get_locked_balance();
    let total = staking_state.total_share;
    let locked = match checked_multiply_ratio(locked_balance, total, available) {
        Some(v) => v,
        None => {
            return false;
        },
    };
    match amount {
        Some(v) => {
            let share = match checked_multiply_ratio(v, total, available) {
                Some(w) => w,
                None => {
                    return false;
                },
            };
            let withdraw = if share > 1 {
                share
            } else {
                1
            };
            locked <= u128::MAX - withdraw
        },
        None => {
            if locked > user_share || total == 0 {
                return false;
            }
            let withdraw = user_share - locked;
            checked_multiply_ratio(withdraw, available, total).is_some()
        },
    }
}

/// Unstakes governance tokens for `staker`; only the contract itself may
/// call. Votes on polls no longer in progress (`in_progress[i]` tells for the
/// `i`-th vote) are dropped first; the largest remaining vote stays locked.
/// `amount` tokens are withdrawn, or all unlocked shares when no amount is
/// given, as long as the locked shares remain. The result holds the staking
/// state and the staker's state to store.
pub fn unstake_governance_token_hook(
    contract_config: &ContractConfig,
    contract_address: &String,
    sender: &String,
    staking_state: &StakingState,
    poll_state: &PollState,
    staker_state: Option<StakerState>,
    in_progress: &Vec<bool>,
    contract_balance: u128,
    staker: String,
    amount: Option<u128>,
) -> (r: Result<(StakingState, StakerState, Response), ContractError>)
    requires
        staker_state is Some ==> in_progress@.len() == staker_state->Some_0.votes@.len(),
        contract_address@ == sender@ && staker_state is Some ==> unstake_hook_defined(
            *staking_state,
            staker_state->Some_0.share,
            spec_kept_votes(staker_state->Some_0.votes@, in_progress@),
            contract_balance - poll_state.total_deposit,
            amount,
        ),
    ensures
        contract_address@ != sender@ ==> r == Err::<
            (StakingState, StakerState, Response),
            ContractError,
        >(ContractError::Unauthorized),
        contract_address@ == sender@ && staker_state is None ==> r is Err && is_generic_err(
            r->Err_0,
            "Nothing staked"@,
        ),
        contract_address@ == sender@ && staker_state is Some && contract_balance
            < poll_state.total_deposit ==> r is Err && r->Err_0 is Std && is_sub_overflow(
            r->Err_0->Std_0,
            contract_balance,
            poll_state.total_deposit,
        ),
        contract_address@ == sender@ && staker_state is Some && contract_balance
            >= poll_state.total_deposit ==> ({
            let st = staker_state->Some_0;
            let votes = spec_kept_votes(st.votes@, in_progress@);
            let available = contract_balance - poll_state.total_deposit;
            let total = staking_state.total_share;
            let locked = spec_locked_share(spec_max_vote(votes), total, available);
            let withdraw = spec_withdraw_share(amount, st.share, locked, total, available);
            let withdraw_amount = spec_withdraw_amount(amount, withdraw, total, available);
            &&& locked + withdraw > st.share ==> r is Err && is_generic_err(
                r->Err_0,
                "User is trying to unstake too many tokens."@,
            )
            &&& locked + withdraw <= st.share && total < withdraw ==> r is Err && r->Err_0 is Std
                && is_sub_overflow(r->Err_0->Std_0, total, withdraw as u128)
            &&& locked + withdraw <= st.share && total >= withdraw ==> {
                &&& r is Ok
                &&& r->Ok_0.0.total_share == total - withdraw
                &&& r->Ok_0.1.address == st.address
                &&& r->Ok_0.1.share == st.share - withdraw
                &&& r->Ok_0.1.votes@ == votes
                &&& r->Ok_0.2@ == with_attr(
                    with_attr(
                        with_msg(
                            action_response("unstake_governance_token_hook"@),
                            transfer_msg(
                                contract_config.governance_token@,
                                staker@,
                                withdraw_amount as u128,
                            ),
                        ),
                        "unstake_amount"@,
                        spec_decimal(withdraw_amount as nat),
                    ),
                    "unstake_share"@,
                    spec_decimal(withdraw as nat),
                )
            }
        }),
{
    if *contract_address != *sender {
        return Err(ContractError::Unauthorized);
    }
    let mut staker_state = match staker_state {
        Some(s) => s,
        None => {
            return Err(generic_err("Nothing staked"));
        },
    };
    let mut response = make_response("unstake_governance_token_hook");
    staker_state.clean_votes(in_progress);
    let contract_available_balance = match load_available_balance(contract_balance, poll_state) {
        Ok(v) => v,
        Err(e) => {
            return Err(ContractError::Std(e));
        },
    };
    let total_share = staking_state.total_share;
    let locked_balance = staker_state.get_locked_balance();
    let locked_share = multiply_ratio(locked_balance, total_share, contract_available_balance);
    let user_share = staker_state.share;
    let withdraw_share = match amount {
        Some(v) => {
            let s = multiply_ratio(v, total_share, contract_available_balance);
            if s > 1 {
                s
            } else {
                1
            }
        },
        None => user_share - locked_share,
    };
    let withdraw_amount = match amount {
        Some(v) => v,
        None => multiply_ratio(withdraw_share, contract_available_balance, total_share),
    };
    if locked_share + withdraw_share > user_share {
        return Err(generic_err("User is trying to unstake too many tokens."));
    }
    staker_state.share = user_share - withdraw_share;
    let new_total = match checked_sub(total_share, withdraw_share) {
        Ok(v) => v,
        Err(e) => {
            return Err(ContractError::Std(e));
        },
    };
    response = response.add_message(
        contract_config.governance_token.clone(),
        ExecuteBody::Cw20Transfer { recipient: staker, amount: withdraw_amount },
    );
    response = response.add_attribute("unstake_amount", uint_to_string(withdraw_amount));
    response = response.add_attribute("unstake_share", uint_to_string(withdraw_share));
    Ok((StakingState { total_share: new_total }, staker_state, response))
}

/// Staking creates no value when tokens and shares are already there: the
/// shares that `amount` tokens buy are worth at most `amount` afterwards, and
/// any shares held before are worth at least what they were worth before.
/// (With no shares yet, the first staker takes the tokens already there.)
pub proof fn law_stake_creates_no_value(
    amount: u128,
    total_share: u128,
    available: u128,
    held: u128,
)
    requires
        total_share > 0,
        available > 0,
        held <= total_share,
        total_share + spec_stake_share(amount, total_share, available as int) <= u128::MAX,
        available + amount <= u128::MAX,
    ensures
        ({
            let share = spec_stake_share(amount, total_share, available as int);
            let new_total = (total_share + share) as u128;
            let new_available = (available + amount) as u128;
            &&& spec_balance(share as u128, new_total, new_available) <= amount
            &&& spec_balance(held, new_total, new_available) >= spec_balance(
                held,
                total_share,
                available,
            )
        }),
{
    let a = amount as int;
    let t = total_share as int;
    let av = available as int;
    let sh = spec_stake_share(amount, total_share, available as int);
    lemma_div_mul_le(a * t, av);
    assert(a * t >= 0) by (nonlinear_arith)
        requires
            a >= 0,
            t >= 0,
    ;
    assert(sh == (a * t) / av);
    assert(sh * av <= a * t);
    assert(sh >= 0);
    assert(sh * (av + a) <= a * (t + sh)) by (nonlinear_arith)
        requires
            sh * av <= a * t,
            sh >= 0,
            a >= 0,
    ;
    assert(sh * (av + a) >= 0) by (nonlinear_arith)
        requires
            sh >= 0,
            av + a >= 0,
    ;
    vstd::arithmetic::div_mod::lemma_multiply_divide_le(sh * (av + a), t + sh, a);
    let h = held as int;
    assert(h * av >= 0) by (nonlinear_arith)
        requires
            h >= 0,
            av >= 0,
    ;
    lemma_div_mul_le(h * av, t);
    let q = (h * av) / t;
    assert(q * sh <= h * a) by (nonlinear_arith)
        requires
            q * t <= h * av,
            sh * av <= a * t,
            q >= 0,
            sh >= 0,
            t > 0,
            av > 0,
    {
        assert((q * t) * (sh * av) <= (h * av) * (sh * av)) by (nonlinear_arith)
            requires
                q * t <= h * av,
                sh * av >= 0,
        ;
        assert((h * av) * (sh * av) <= (h * av) * (a * t)) by (nonlinear_arith)
            requires
                sh * av <= a * t,
                h * av >= 0,
        ;
        assert((q * sh) * (t * av) <= (h * a) * (t * av)) by (nonlinear_arith)
            requires
                (q * t) * (sh * av) <= (h * av) * (a * t),
        ;
        assert(t * av > 0) by (nonlinear_arith)
            requires
                t > 0,
                av > 0,
        ;
    }
    assert(q * (t + sh) <= h * (av + a)) by (nonlinear_arith)
        requires
            q * t <= h * av,
            q * sh <= h * a,
    ;
    lemma_le_div(q, t + sh, h * (av + a));
}

/// Unstaking sends the worth of the withdrawn shares: with an amount asked
/// for, that amount; with none, the tokens `w` shares stand for, the largest
/// amount whose multiple of `total_share` does not exceed `w * available`,
/// which is the balance of `w` shares. A staker with no votes left that
/// unstakes everything gets its whole balance.
pub proof fn law_unstake_sends_worth_of_shares(
    w: u128,
    share: u128,
    total_share: u128,
    available: u128,
    v: u128,
)
    requires
        total_share > 0,
        available > 0,
    ensures
        spec_withdraw_amount(Some(v), w as int, total_share, available as int) == v,
        spec_withdraw_amount(None, w as int, total_share, available as int) * total_share <= w
            * available,
        w * available < (spec_withdraw_amount(None, w as int, total_share, available as int) + 1)
            * total_share,
        spec_withdraw_amount(None, w as int, total_share, available as int) == spec_balance(
            w,
            total_share,
            available,
        ),
        spec_withdraw_amount(
            None,
            spec_withdraw_share(
                None,
                share,
                spec_locked_share(spec_max_vote(Seq::empty()), total_share, available as int),
                total_share,
                available as int,
            ),
            total_share,
            available as int,
        ) == spec_balance(share, total_share, available),
{
    let t = total_share as int;
    let x = w * available;
    vstd::arithmetic::div_mod::lemma_fundamental_div_mod(x, t);
    vstd::arithmetic::div_mod::lemma_mod_bound(x, t);
    let b = x / t;
    assert(b * t <= x && x < (b + 1) * t) by (nonlinear_arith)
        requires
            x == t * b + x % t,
            0 <= x % t < t,
    ;
    assert(spec_max_vote(Seq::<(u64, crate::governance::poll::VoteInfo)>::empty()) == 0);
    assert(0 * t == 0);
    assert(spec_locked_share(0, total_share, available as int) == 0) by {
        assert((0u128 as int) * (total_share as int) == 0) by (nonlinear_arith);
    }
}

} // verus!
