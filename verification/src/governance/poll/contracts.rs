//! The admin-governed poll operations.
//!
//! Polls here take yes and no votes (an abstention counts as no), the poll
//! deposits are accounted with the staking totals when polls end, execution
//! sends the poll's messages directly, and a passed poll that was not executed
//! expires. Each operation takes the stored values the contract call reads and
//! returns the values to store; on an error nothing is stored.
use vstd::prelude::*;
use crate::bytes::CanonicalAddr;
use crate::errors::{
    ContractError, StdError, checked_sub, generic_err, is_generic_err, is_sub_overflow,
};
use crate::governance::common::contracts::{default_response, empty_response};
use crate::governance::common::state::ContractConfig;
use crate::governance::poll::executions::{
    add_execution_messages, deposit_error, description_error, execution_messages, link_error,
    title_error, updated, validate_description, validate_link, validate_quorum,
    validate_threshold, validate_title,
};
use crate::governance::poll::state::{
    Execution, Poll, PollConfig, PollConfigInitMsg, PollState, VoterInfo, get_poll_id,
    spec_state_after_create,
};
use crate::governance::poll::{
    PollStatus, VoteOption, executions_view, lemma_ratio_at_most_one, sort_executions,
    sorted_by_order, spec_option_str, with_order,
};
use crate::governance::staking::state::{StakingIndividualState, StakingState};
use crate::math::{DECIMAL_FRACTIONAL, Decimal, multiply_ratio, spec_multiply_ratio, spec_ratio_atomics};
use crate::messages::{
    ExecuteBody, ExecutionMsg, ExecutionMsgView, Response, ResponseView, action_response,
    bool_to_string, make_response, spec_bool_str, spec_decimal, transfer_msg, u64_to_string,
    uint_to_string, with_attr, with_msg,
};

verus! {

/// Sets up the poll rules and counters. Quorum and threshold may not exceed one.
pub fn instantiate(msg: PollConfigInitMsg) -> (r: Result<(PollConfig, PollState, Response), ContractError>)
    ensures
        msg.quorum.atomics > DECIMAL_FRACTIONAL ==> r is Err && is_generic_err(
            r->Err_0,
            "quorum must be 0 to 1"@,
        ),
        msg.quorum.atomics <= DECIMAL_FRACTIONAL && msg.threshold.atomics > DECIMAL_FRACTIONAL
            ==> r is Err && is_generic_err(r->Err_0, "threshold must be 0 to 1"@),
        msg.quorum.atomics <= DECIMAL_FRACTIONAL && msg.threshold.atomics <= DECIMAL_FRACTIONAL
            ==> r is Ok && r->Ok_0.0 == (PollConfig {
            quorum: msg.quorum,
            threshold: msg.threshold,
            voting_period: msg.voting_period,
            execution_delay_period: msg.execution_delay_period,
            expiration_period: msg.expiration_period,
            proposal_deposit: msg.proposal_deposit,
            snapshot_period: msg.snapshot_period,
        }) && r->Ok_0.1 == (PollState { poll_count: 0, total_deposit: 0 }) && empty_response(
            r->Ok_0.2,
        ),
{
    if let Err(e) = validate_quorum(msg.quorum) {
        return Err(ContractError::Std(e));
    }
    if let Err(e) = validate_threshold(msg.threshold) {
        return Err(ContractError::Std(e));
    }
    let poll_config = PollConfig {
        quorum: msg.quorum,
        threshold: msg.threshold,
        voting_period: msg.voting_period,
        execution_delay_period: msg.execution_delay_period,
        expiration_period: msg.expiration_period,
        proposal_deposit: msg.proposal_deposit,
        snapshot_period: msg.snapshot_period,
    };
    Ok((poll_config, PollState { poll_count: 0, total_deposit: 0 }, default_response()))
}

/// Updates the poll rules that are given; only the admin may. The values
/// are taken as they are.
pub fn update_poll_config(
    contract_config: &ContractConfig,
    poll_config: &mut PollConfig,
    sender: CanonicalAddr,
    quorum: Option<Decimal>,
    threshold: Option<Decimal>,
    voting_period: Option<u64>,
    execution_delay_period: Option<u64>,
    expiration_period: Option<u64>,
    proposal_deposit: Option<u128>,
    snapshot_period: Option<u64>,
) -> (r: Result<Response, ContractError>)
    ensures
        contract_config.admin@ != sender@ ==> r == Err::<Response, ContractError>(
            ContractError::Unauthorized,
        ) && *final(poll_config) == *old(poll_config),
        contract_config.admin@ == sender@ ==> r is Ok && empty_response(r->Ok_0)
            && *final(poll_config) == (PollConfig {
            quorum: updated(quorum, old(poll_config).quorum),
            threshold: updated(threshold, old(poll_config).threshold),
            voting_period: updated(voting_period, old(poll_config).voting_period),
            execution_delay_period: updated(
                execution_delay_period,
                old(poll_config).execution_delay_period,
            ),
            expiration_period: updated(expiration_period, old(poll_config).expiration_period),
            proposal_deposit: updated(proposal_deposit, old(poll_config).proposal_deposit),
            snapshot_period: updated(snapshot_period, old(poll_config).snapshot_period),
        }),
{
    if !contract_config.is_admin(sender) {
        return Err(ContractError::Unauthorized);
    }
    if let Some(quorum) = quorum {
        poll_config.quorum = quorum;
    }
    if let Some(threshold) = threshold {
        poll_config.threshold = threshold;
    }
    if let Some(voting_period) = voting_period {
        poll_config.voting_period = voting_period;
    }
    if let Some(execution_delay_period) = execution_delay_period {
        poll_config.execution_delay_period = execution_delay_period;
    }
    if let Some(expiration_period) = expiration_period {
        poll_config.expiration_period = expiration_period;
    }
    if let Some(proposal_deposit) = proposal_deposit {
        poll_config.proposal_deposit = proposal_deposit;
    }
    if let Some(period) = snapshot_period {
        poll_config.snapshot_period = period;
    }
    Ok(default_response())
}

/// The error message for the text of a new poll, in the order it is checked.
pub open spec fn poll_text_error(
    title: Seq<char>,
    description: Seq<char>,
    link: Option<String>,
) -> Option<Seq<char>> {
    if title_error(title) is Some {
        title_error(title)
    } else if description_error(description) is Some {
        description_error(description)
    } else {
        link_error(link)
    }
}

/// Creates a poll proposed by `proposer` with a deposit of `deposit_amount`
/// tokens; `sender` is the caller, which the response names as the creator.
/// The text and link are checked, then the deposit. The poll takes the next
/// id and takes votes up to `voting_period` blocks after `block_height`.
pub fn create_poll(
    poll_config: &PollConfig,
    poll_state: &mut PollState,
    sender: String,
    block_height: u64,
    proposer: CanonicalAddr,
    deposit_amount: u128,
    title: String,
    description: String,
    link: Option<String>,
    executions: Option<Vec<Execution>>,
) -> (r: Result<(Poll, Response), ContractError>)
    requires
        poll_text_error(title@, description@, link) is None && deposit_amount
            >= poll_config.proposal_deposit ==> {
            &&& old(poll_state).poll_count < u64::MAX
            &&& old(poll_state).total_deposit + deposit_amount <= u128::MAX
            &&& block_height + poll_config.voting_period <= u64::MAX
        },
    ensures
        r is Err ==> *final(poll_state) == *old(poll_state),
        poll_text_error(title@, description@, link) is Some ==> r is Err && is_generic_err(
            r->Err_0,
            poll_text_error(title@, description@, link)->Some_0,
        ),
        poll_text_error(title@, description@, link) is None && deposit_amount
            < poll_config.proposal_deposit ==> r is Err && is_generic_err(
            r->Err_0,
            deposit_error(poll_config.proposal_deposit),
        ),
        poll_text_error(title@, description@, link) is None && deposit_amount
            >= poll_config.proposal_deposit ==> {
            &&& r is Ok
            &&& *final(poll_state) == spec_state_after_create(*old(poll_state), deposit_amount)
            &&& r->Ok_0.0 == (Poll {
                id: final(poll_state).poll_count,
                title,
                description,
                link,
                executions,
                creator: proposer,
                deposit_amount,
                yes_votes: 0,
                no_votes: 0,
                end_height: (block_height + poll_config.voting_period) as u64,
                status: PollStatus::InProgress,
                staked_amount: None,
                total_balance_at_end_poll: None,
            })
            &&& r->Ok_0.1@ == with_attr(
                with_attr(
                    with_attr(action_response("create_poll"@), "creator"@, sender@),
                    "poll_id"@,
                    spec_decimal(final(poll_state).poll_count as nat),
                ),
                "end_height"@,
                spec_decimal((block_height + poll_config.voting_period) as nat),
            )
        },
{
    if let Err(e) = validate_title(&title) {
        return Err(ContractError::Std(e));
    }
    if let Err(e) = validate_description(&description) {
        return Err(ContractError::Std(e));
    }
    if let Err(e) = validate_link(&link) {
        return Err(ContractError::Std(e));
    }
    if deposit_amount < poll_config.proposal_deposit {
        let msg = String::from_str("Must deposit more than ").concat(
            uint_to_string(poll_config.proposal_deposit).as_str(),
        ).concat(" token");
        return Err(ContractError::Std(StdError::GenericErr { msg }));
    }
    let id = get_poll_id(poll_state, deposit_amount);
    let end_height = block_height + poll_config.voting_period;
    let poll = Poll {
        id,
        title,
        description,
        link,
        executions,
        creator: proposer,
        deposit_amount,
        yes_votes: 0,
        no_votes: 0,
        end_height,
        status: PollStatus::InProgress,
        staked_amount: None,
        total_balance_at_end_poll: None,
    };
    let response = make_response("create_poll").add_attribute("creator", sender).add_attribute(
        "poll_id",
        u64_to_string(id),
    ).add_attribute("end_height", u64_to_string(end_height));
    Ok((poll, response))
}

/// The tokens that `share` shares are worth when `total_share` shares stand
/// for `available` tokens.
pub open spec fn share_balance(share: u128, available: u128, total_share: u128) -> int {
    spec_multiply_ratio(share as int, available as int, total_share as int)
}

/// `p` after a vote at `block_height` with `available` tokens staked: a yes
/// vote counts as yes and any other as no, and the staked amount is snapshot
/// when fewer than `snapshot_period` blocks are left and none was taken.
pub open spec fn voted_poll(
    p: Poll,
    config: PollConfig,
    block_height: u64,
    available: u128,
    vote: VoteOption,
    amount: u128,
) -> Poll {
    let v = if vote == VoteOption::Yes {
        Poll { yes_votes: (p.yes_votes + amount) as u128, ..p }
    } else {
        Poll { no_votes: (p.no_votes + amount) as u128, ..p }
    };
    if p.end_height - block_height < config.snapshot_period && p.staked_amount is None {
        Poll { staked_amount: Some(available), ..v }
    } else {
        v
    }
}

/// `cast_vote` divides by non-zero shares and stays within 128 bits.
pub open spec fn cast_vote_defined(
    poll: Option<Poll>,
    staking_state: StakingState,
    staker: StakingIndividualState,
    contract_balance: u128,
    vote: VoteOption,
    amount: u128,
) -> bool {
    contract_balance >= staking_state.total_deposit ==> {
        let available = (contract_balance - staking_state.total_deposit) as u128;
        &&& staking_state.total_share != 0
        &&& share_balance(staker.share, available, staking_state.total_share) <= u128::MAX
        &&& poll is Some ==> (if vote == VoteOption::Yes {
            poll->Some_0.yes_votes
        } else {
            poll->Some_0.no_votes
        }) + amount <= u128::MAX
    }
}

/// Casts the vote of `sender` on the poll `poll_id` (stored as `poll`, when it
/// is) for `amount` tokens. The poll must exist and be in progress, the
/// sender may vote once (`already_voted` tells whether a vote is stored), and
/// its shares must be worth the amount. The result holds the poll and the
/// staker's state to store; the vote locks the amount for the poll.
pub fn cast_vote(
    poll_config: &PollConfig,
    poll_state: &PollState,
    staking_state: &StakingState,
    poll: Option<Poll>,
    already_voted: bool,
    staker: StakingIndividualState,
    contract_balance: u128,
    block_height: u64,
    sender: String,
    poll_id: u64,
    vote: VoteOption,
    amount: u128,
) -> (r: Result<(Poll, StakingIndividualState, Response), ContractError>)
    requires
        !(poll_id == 0 || poll_state.poll_count < poll_id) && poll is Some
            && poll->Some_0.in_progress_spec(block_height) && !already_voted ==> cast_vote_defined(
            poll,
            *staking_state,
            staker,
            contract_balance,
            vote,
            amount,
        ),
    ensures
        poll_id == 0 || poll_state.poll_count < poll_id ==> r is Err && is_generic_err(
            r->Err_0,
            "Poll does not exist"@,
        ),
        !(poll_id == 0 || poll_state.poll_count < poll_id) ==> {
            &&& poll is None ==> r is Err && r->Err_0 is Std && r->Err_0->Std_0 is NotFound
            &&& poll is Some ==> ({
                let p = poll->Some_0;
                let available = (contract_balance - staking_state.total_deposit) as u128;
                &&& !p.in_progress_spec(block_height) ==> r is Err && is_generic_err(
                    r->Err_0,
                    "Poll is not in progress"@,
                )
                &&& p.in_progress_spec(block_height) && already_voted ==> r is Err
                    && is_generic_err(r->Err_0, "User has already voted."@)
                &&& p.in_progress_spec(block_height) && !already_voted && contract_balance
                    < staking_state.total_deposit ==> r is Err && r->Err_0 is Std
                    && is_sub_overflow(r->Err_0->Std_0, contract_balance, staking_state.total_deposit)
                &&& p.in_progress_spec(block_height) && !already_voted && contract_balance
                    >= staking_state.total_deposit && share_balance(
                    staker.share,
                    available,
                    staking_state.total_share,
                ) < amount ==> r is Err && is_generic_err(
                    r->Err_0,
                    "User does not have enough staked tokens."@,
                )
                &&& p.in_progress_spec(block_height) && !already_voted && contract_balance
                    >= staking_state.total_deposit && share_balance(
                    staker.share,
                    available,
                    staking_state.total_share,
                ) >= amount ==> {
                    &&& r is Ok
                    &&& r->Ok_0.0 == voted_poll(p, *poll_config, block_height, available, vote, amount)
                    &&& r->Ok_0.1.share == staker.share
                    &&& r->Ok_0.1.locked_balance@ == staker.locked_balance@.push(
                        (poll_id, VoterInfo { vote, balance: amount }),
                    )
                    &&& r->Ok_0.2@ == with_attr(
                        with_attr(
                            with_attr(
                                with_attr(
                                    action_response("cast_vote"@),
                                    "poll_id"@,
                                    spec_decimal(poll_id as nat),
                                ),
                                "amount"@,
                                spec_decimal(amount as nat),
                            ),
                            "voter"@,
                            sender@,
                        ),
                        "voter_option"@,
                        spec_option_str(vote),
                    )
                }
            })
        },
{
    if poll_id == 0 || poll_state.poll_count < poll_id {
        return Err(generic_err("Poll does not exist"));
    }
    let mut poll = match poll {
        Some(p) => p,
        None => {
            return Err(
                ContractError::Std(StdError::NotFound { kind: String::from_str("Poll") }),
            );
        },
    };
    if !poll.in_progress(block_height) {
        return Err(generic_err("Poll is not in progress"));
    }
    if already_voted {
        return Err(generic_err("User has already voted."));
    }
    let total_balance = match checked_sub(contract_balance, staking_state.total_deposit) {
        Ok(v) => v,
        Err(e) => {
            return Err(ContractError::Std(e));
        },
    };
    if multiply_ratio(staker.share, total_balance, staking_state.total_share) < amount {
        return Err(generic_err("User does not have enough staked tokens."));
    }
    if vote == VoteOption::Yes {
        poll.yes_votes = poll.yes_votes + amount;
    } else {
        poll.no_votes = poll.no_votes + amount;
    }
    let voter_info = VoterInfo { vote, balance: amount };
    let mut staker = staker;
    staker.locked_balance.push((poll_id, voter_info));
    let time_to_end = poll.end_height - block_height;
    if time_to_end < poll_config.snapshot_period && poll.staked_amount.is_none() {
        poll.staked_amount = Some(total_balance);
    }
    let response = make_response("cast_vote").add_attribute("poll_id", u64_to_string(poll_id))
        .add_attribute("amount", uint_to_string(amount)).add_attribute("voter", sender)
        .add_attribute("voter_option", vote.to_string());
    Ok((poll, staker, response))
}

/// The votes cast on `p`.
pub open spec fn tallied(p: Poll) -> int {
    p.yes_votes + p.no_votes
}

/// The staked amount the quorum of `p` is measured against: nothing when
/// nothing is staked, else the snapshot when there is one, else the amount
/// available now.
pub open spec fn quorum_base(p: Poll, total_share: u128, available: int) -> int {
    if total_share == 0 {
        0
    } else if p.staked_amount is Some {
        p.staked_amount->Some_0 as int
    } else {
        available
    }
}

/// The share of the staked amount that voted on `p`, as decimal atomics.
pub open spec fn quorum(p: Poll, total_share: u128, available: int) -> int {
    if total_share == 0 {
        0
    } else {
        spec_ratio_atomics(tallied(p), quorum_base(p, total_share, available))
    }
}

/// The quorum `q` of `p` is reached: someone voted, and `q` is not below the
/// quorum of the rules.
pub open spec fn quorum_reached(p: Poll, config: PollConfig, q: int) -> bool {
    tallied(p) != 0 && q >= config.quorum.atomics
}

/// `p` passes with the quorum `q`: the quorum is reached and more than the
/// threshold of the votes are yes.
pub open spec fn poll_passes(p: Poll, config: PollConfig, q: int) -> bool {
    quorum_reached(p, config, q) && spec_ratio_atomics(p.yes_votes as int, tallied(p))
        > config.threshold.atomics
}

/// Why `p` was rejected with the quorum `q` (empty when it passed).
pub open spec fn rejected_reason(p: Poll, config: PollConfig, q: int) -> Seq<char> {
    if !quorum_reached(p, config, q) {
        "Quorum not reached"@
    } else if poll_passes(p, config, q) {
        ""@
    } else {
        "Threshold not reached"@
    }
}

/// The response of `end_poll`: the deposit goes back to the creator when the
/// quorum was reached (and there is one).
pub open spec fn end_poll_response(
    token: Seq<char>,
    creator: Seq<char>,
    p: Poll,
    poll_id: u64,
    reached: bool,
    passed: bool,
    reason: Seq<char>,
) -> ResponseView {
    let base = action_response("end_poll"@);
    let with_refund = if reached && p.deposit_amount != 0 {
        with_msg(base, transfer_msg(token, creator, p.deposit_amount))
    } else {
        base
    };
    with_attr(
        with_attr(with_attr(with_refund, "poll_id"@, spec_decimal(poll_id as nat)), "rejected_reason"@, reason),
        "passed"@,
        spec_bool_str(passed),
    )
}

/// `end_poll` divides by non-zero amounts and stays within 128 bits.
pub open spec fn end_poll_defined(p: Poll, staking_state: StakingState, contract_balance: u128) -> bool {
    let available = contract_balance - staking_state.total_deposit;
    &&& tallied(p) <= u128::MAX
    &&& staking_state.total_share != 0 && (p.staked_amount is Some || available >= 0) ==> {
        &&& quorum_base(p, staking_state.total_share, available) != 0
        &&& quorum(p, staking_state.total_share, available) <= u128::MAX
    }
}

/// Ends the vote on `poll` (the poll `poll_id`) once its voting period is
/// over. The poll passes when the quorum and the threshold are reached and is
/// rejected otherwise; the deposit is refunded to its creator (`creator_addr`)
/// in the token (`token_addr`) unless the quorum was missed, and it leaves the
/// total deposit in any case. The result holds the poll and the staking
/// totals to store.
pub fn end_poll(
    poll_config: &PollConfig,
    staking_state: &StakingState,
    poll: Poll,
    token_addr: String,
    creator_addr: String,
    contract_balance: u128,
    block_height: u64,
    poll_id: u64,
) -> (r: Result<(Poll, StakingState, Response), ContractError>)
    requires
        poll.status == PollStatus::InProgress && poll.end_height <= block_height
            ==> end_poll_defined(poll, *staking_state, contract_balance),
    ensures
        poll.status != PollStatus::InProgress ==> r is Err && is_generic_err(
            r->Err_0,
            "Poll is not in progress"@,
        ),
        poll.status == PollStatus::InProgress && poll.end_height > block_height ==> r is Err
            && is_generic_err(r->Err_0, "Voting period has not expired"@),
        poll.status == PollStatus::InProgress && poll.end_height <= block_height ==> ({
            let total_share = staking_state.total_share;
            let available = contract_balance - staking_state.total_deposit;
            let needs_available = total_share != 0 && poll.staked_amount is None;
            let q = quorum(poll, total_share, available);
            let reached = quorum_reached(poll, *poll_config, q);
            let passed = poll_passes(poll, *poll_config, q);
            &&& needs_available && available < 0 ==> r is Err && r->Err_0 is Std
                && is_sub_overflow(r->Err_0->Std_0, contract_balance, staking_state.total_deposit)
            &&& !(needs_available && available < 0) && staking_state.total_deposit
                < poll.deposit_amount ==> r is Err && r->Err_0 is Std && is_sub_overflow(
                r->Err_0->Std_0,
                staking_state.total_deposit,
                poll.deposit_amount,
            )
            &&& !(needs_available && available < 0) && staking_state.total_deposit
                >= poll.deposit_amount ==> {
                &&& r is Ok
                &&& r->Ok_0.0 == (Poll {
                    status: if passed {
                        PollStatus::Passed
                    } else {
                        PollStatus::Rejected
                    },
                    total_balance_at_end_poll: Some(
                        quorum_base(poll, total_share, available) as u128,
                    ),
                    ..poll
                })
                &&& r->Ok_0.1 == (StakingState {
                    total_deposit: (staking_state.total_deposit - poll.deposit_amount) as u128,
                    ..*staking_state
                })
                &&& r->Ok_0.2@ == end_poll_response(
                    token_addr@,
                    creator_addr@,
                    poll,
                    poll_id,
                    reached,
                    passed,
                    rejected_reason(poll, *poll_config, q),
                )
            }
        }),
{
    let mut poll = poll;
    if poll.status != PollStatus::InProgress {
        return Err(generic_err("Poll is not in progress"));
    }
    if poll.end_height > block_height {
        return Err(generic_err("Voting period has not expired"));
    }
    let no = poll.no_votes;
    let yes = poll.yes_votes;
    let tallied_weight = yes + no;
    let (quorum, staked_weight) = if staking_state.total_share == 0 {
        (Decimal::zero(), 0u128)
    } else if let Some(staked_amount) = poll.staked_amount {
        (Decimal::from_ratio(tallied_weight, staked_amount), staked_amount)
    } else {
        let staked_weight = match checked_sub(contract_balance, staking_state.total_deposit) {
            Ok(v) => v,
            Err(e) => {
                return Err(ContractError::Std(e));
            },
        };
        (Decimal::from_ratio(tallied_weight, staked_weight), staked_weight)
    };
    let mut response = make_response("end_poll");
    let mut poll_status = PollStatus::Rejected;
    let mut rejected_reason = String::from_str("");
    let mut passed = false;
    if tallied_weight == 0 || quorum.atomics < poll_config.quorum.atomics {
        rejected_reason = String::from_str("Quorum not reached");
    } else {
        proof {
            lemma_ratio_at_most_one(yes as int, tallied_weight as int);
        }
        if Decimal::from_ratio(yes, tallied_weight).atomics > poll_config.threshold.atomics {
            poll_status = PollStatus::Passed;
            passed = true;
        } else {
            rejected_reason = String::from_str("Threshold not reached");
        }
        if poll.deposit_amount != 0 {
            response = response.add_message(
                token_addr,
                ExecuteBody::Cw20Transfer { recipient: creator_addr, amount: poll.deposit_amount },
            );
        }
    }
    let total_deposit = match checked_sub(staking_state.total_deposit, poll.deposit_amount) {
        Ok(v) => v,
        Err(e) => {
            return Err(ContractError::Std(e));
        },
    };
    let new_staking_state = StakingState { total_share: staking_state.total_share, total_deposit };
    poll.status = poll_status;
    poll.total_balance_at_end_poll = Some(staked_weight);
    response = response.add_attribute("poll_id", u64_to_string(poll_id));
    response = response.add_attribute("rejected_reason", rejected_reason);
    response = response.add_attribute("passed", bool_to_string(passed));
    Ok((poll, new_staking_state, response))
}

/// The executions of a poll, each to its contract by the address the chain
/// shows (`contracts`, in the same order).
pub open spec fn human_executions(executions: Seq<Execution>, contracts: Seq<String>) -> Seq<
    ExecutionMsgView,
> {
    Seq::new(
        executions.len(),
        |i: int|
            ExecutionMsgView {
                order: executions[i].order,
                contract: contracts[i]@,
                msg: executions[i].msg@,
            },
    )
}

/// The executions with the contracts by the addresses the chain shows.
fn humanize_executions(executions: &Vec<Execution>, contracts: &Vec<String>) -> (r: Vec<ExecutionMsg>)
    requires
        contracts@.len() == executions@.len(),
    ensures
        executions_view(r@) == human_executions(executions@, contracts@),
{
    let mut r: Vec<ExecutionMsg> = Vec::new();
    let mut i: usize = 0;
    while i < executions.len()
        invariant
            contracts@.len() == executions@.len(),
            i <= executions@.len(),
            executions_view(r@) == human_executions(executions@, contracts@).take(i as int),
        decreases executions@.len() - i,
    {
        let e = &executions[i];
        let ghost before = r@;
        let m = ExecutionMsg { order: e.order, contract: contracts[i].clone(), msg: e.msg.clone() };
        assert(m@ == human_executions(executions@, contracts@)[i as int]);
        r.push(m);
        proof {
            assert(r@ =~= before.push(m));
            assert(executions_view(r@) =~= executions_view(before).push(m@));
            assert(executions_view(r@) =~= human_executions(executions@, contracts@).take(
                i + 1,
            ));
        }
        i = i + 1;
    }
    proof {
        assert(human_executions(executions@, contracts@).take(i as int) =~= human_executions(
            executions@,
            contracts@,
        ));
    }
    r
}

/// Executes a passed poll once the execution delay after its end is over:
/// the poll becomes executed and its messages go out by increasing order
/// (those of equal order as they were given), each to its contract (the
/// chain's addresses of the executions' contracts are `contracts`). A poll
/// without executions cannot be executed. The result holds the poll to store.
pub fn execute_poll(
    poll_config: &PollConfig,
    poll: Poll,
    contracts: Vec<String>,
    block_height: u64,
    poll_id: u64,
) -> (r: Result<(Poll, Response), ContractError>)
    requires
        poll.status == PollStatus::Passed ==> poll.end_height + poll_config.execution_delay_period
            <= u64::MAX,
        poll.executions is Some ==> contracts@.len() == poll.executions->Some_0@.len(),
    ensures
        poll.status != PollStatus::Passed ==> r is Err && is_generic_err(
            r->Err_0,
            "Poll is not in passed status"@,
        ),
        poll.status == PollStatus::Passed && poll.end_height + poll_config.execution_delay_period
            > block_height ==> r is Err && is_generic_err(
            r->Err_0,
            "Timelock period has not expired"@,
        ),
        poll.status == PollStatus::Passed && poll.end_height + poll_config.execution_delay_period
            <= block_height && poll.executions is None ==> r is Err && is_generic_err(
            r->Err_0,
            "The poll does now have executions"@,
        ),
        poll.status == PollStatus::Passed && poll.end_height + poll_config.execution_delay_period
            <= block_height && poll.executions is Some ==> {
            let given = human_executions(poll.executions->Some_0@, contracts@);
            &&& r is Ok
            &&& r->Ok_0.0 == (Poll { status: PollStatus::Executed, ..poll })
            &&& exists|s: Seq<ExecutionMsgView>|
                {
                    &&& sorted_by_order(s)
                    &&& s.to_multiset() == given.to_multiset()
                    &&& forall|k: u64| #[trigger] with_order(s, k) == with_order(given, k)
                    &&& r->Ok_0.1@.messages == execution_messages(s)
                }
            &&& r->Ok_0.1@.attributes == with_attr(
                action_response("execute_poll"@),
                "poll_id"@,
                spec_decimal(poll_id as nat),
            ).attributes
        },
{
    let mut poll = poll;
    if poll.status != PollStatus::Passed {
        return Err(generic_err("Poll is not in passed status"));
    }
    if poll.end_height + poll_config.execution_delay_period > block_height {
        return Err(generic_err("Timelock period has not expired"));
    }
    poll.status = PollStatus::Executed;
    let sorted = match &poll.executions {
        Some(executions) => {
            let human = humanize_executions(executions, &contracts);
            sort_executions(&human)
        },
        None => {
            return Err(generic_err("The poll does now have executions"));
        },
    };
    let response = add_execution_messages(make_response("execute_poll"), &sorted);
    proof {
        assert(response@.messages =~= execution_messages(executions_view(sorted@)));
    }
    let response = response.add_attribute("poll_id", u64_to_string(poll_id));
    Ok((poll, response))
}

/// Expires a passed poll with executions that were not executed within the
/// expiration period after its end. The result holds the poll to store.
pub fn expire_poll(poll_config: &PollConfig, poll: Poll, block_height: u64, poll_id: u64) -> (r:
    Result<(Poll, Response), ContractError>)
    requires
        poll.status == PollStatus::Passed ==> poll.end_height + poll_config.expiration_period
            <= u64::MAX,
    ensures
        poll.status != PollStatus::Passed ==> r is Err && is_generic_err(
            r->Err_0,
            "Poll is not in passed status"@,
        ),
        poll.status == PollStatus::Passed && poll.executions is None ==> r is Err
            && is_generic_err(r->Err_0, "Cannot make a text proposal to expired state"@),
        poll.status == PollStatus::Passed && poll.executions is Some && poll.end_height
            + poll_config.expiration_period > block_height ==> r is Err && is_generic_err(
            r->Err_0,
            "Expire height has not been reached"@,
        ),
        poll.status == PollStatus::Passed && poll.executions is Some && poll.end_height
            + poll_config.expiration_period <= block_height ==> r is Ok && r->Ok_0.0 == (Poll {
            status: PollStatus::Expired,
            ..poll
        }) && r->Ok_0.1@ == with_attr(
            action_response("expire_poll"@),
            "poll_id"@,
            spec_decimal(poll_id as nat),
        ),
{
    let mut poll = poll;
    if poll.status != PollStatus::Passed {
        return Err(generic_err("Poll is not in passed status"));
    }
    if poll.executions.is_none() {
        return Err(generic_err("Cannot make a text proposal to expired state"));
    }
    if poll.end_height + poll_config.expiration_period > block_height {
        return Err(generic_err("Expire height has not been reached"));
    }
    poll.status = PollStatus::Expired;
    let response = make_response("expire_poll").add_attribute("poll_id", u64_to_string(poll_id));
    Ok((poll, response))
}

/// Snapshots the staked amount (the balance less the deposits) for the quorum
/// of a poll in progress, within the snapshot period and only once. The
/// result holds the poll to store.
pub fn snapshot_poll(
    poll_config: &PollConfig,
    staking_state: &StakingState,
    poll: Poll,
    contract_balance: u128,
    block_height: u64,
    poll_id: u64,
) -> (r: Result<(Poll, Response), ContractError>)
    requires
        poll.status == PollStatus::InProgress ==> block_height <= poll.end_height,
    ensures
        poll.status != PollStatus::InProgress ==> r is Err && is_generic_err(
            r->Err_0,
            "Poll is not in progress"@,
        ),
        poll.status == PollStatus::InProgress ==> ({
            let available = contract_balance - staking_state.total_deposit;
            &&& poll.end_height - block_height > poll_config.snapshot_period ==> r is Err
                && is_generic_err(r->Err_0, "Cannot snapshot at this height"@)
            &&& poll.end_height - block_height <= poll_config.snapshot_period
                && poll.staked_amount is Some ==> r is Err && is_generic_err(
                r->Err_0,
                "Snapshot has already occurred"@,
            )
            &&& poll.end_height - block_height <= poll_config.snapshot_period
                && poll.staked_amount is None && available < 0 ==> r is Err && r->Err_0 is Std
                && is_sub_overflow(r->Err_0->Std_0, contract_balance, staking_state.total_deposit)
            &&& poll.end_height - block_height <= poll_config.snapshot_period
                && poll.staked_amount is None && available >= 0 ==> r is Ok && r->Ok_0.0 == (Poll {
                staked_amount: Some(available as u128),
                ..poll
            }) && r->Ok_0.1@ == with_attr(
                with_attr(
                    action_response("snapshot_poll"@),
                    "poll_id"@,
                    spec_decimal(poll_id as nat),
                ),
                "staked_amount"@,
                spec_decimal(available as nat),
            )
        }),
{
    let mut poll = poll;
    if poll.status != PollStatus::InProgress {
        return Err(generic_err("Poll is not in progress"));
    }
    let time_to_end = poll.end_height - block_height;
    if time_to_end > poll_config.snapshot_period {
        return Err(generic_err("Cannot snapshot at this height"));
    }
    if poll.staked_amount.is_some() {
        return Err(generic_err("Snapshot has already occurred"));
    }
    let staked_amount = match checked_sub(contract_balance, staking_state.total_deposit) {
        Ok(v) => v,
        Err(e) => {
            return Err(ContractError::Std(e));
        },
    };
    poll.staked_amount = Some(staked_amount);
    let response = make_response("snapshot_poll").add_attribute("poll_id", u64_to_string(poll_id))
        .add_attribute("staked_amount", uint_to_string(staked_amount));
    Ok((poll, response))
}

/// An admin-governed poll passes exactly when someone voted, the quorum `q`
/// is not below the rules' quorum, and more than the threshold of the votes
/// (in atomics of eighteen decimals) are yes; a poll that reached the quorum
/// otherwise is rejected for its threshold.
pub proof fn law_admin_poll_passes_above_threshold(p: Poll, config: PollConfig, q: int)
    ensures
        poll_passes(p, config, q) <==> (p.yes_votes + p.no_votes > 0 && q >= config.quorum.atomics
            && (p.yes_votes * 1_000_000_000_000_000_000int) / (p.yes_votes + p.no_votes)
            > config.threshold.atomics),
        p.yes_votes + p.no_votes > 0 && q >= config.quorum.atomics && !((p.yes_votes
            * 1_000_000_000_000_000_000int) / (p.yes_votes + p.no_votes)
            > config.threshold.atomics) ==> rejected_reason(p, config, q)
            == "Threshold not reached"@,
{
}

/// What a staker's shares are worth: the tokens `share` shares stand for are
/// the largest amount whose multiple of `total_share` does not exceed
/// `share * available`, and a staker holding every share is worth every
/// available token.
pub proof fn law_share_balance_is_worth(share: u128, available: u128, total_share: u128)
    requires
        total_share > 0,
    ensures
        share_balance(share, available, total_share) * total_share <= share * available,
        share * available < (share_balance(share, available, total_share) + 1) * total_share,
        share_balance(total_share, available, total_share) == available,
{
    let t = total_share as int;
    let x = share * available;
    vstd::arithmetic::div_mod::lemma_fundamental_div_mod(x, t);
    vstd::arithmetic::div_mod::lemma_mod_bound(x, t);
    let b = x / t;
    assert(b * t <= x && x < (b + 1) * t) by (nonlinear_arith)
        requires
            x == t * b + x % t,
            0 <= x % t < t,
    ;
    assert((total_share * available) / t == available as int) by {
        vstd::arithmetic::div_mod::lemma_div_multiples_vanish(available as int, t);
        assert(total_share * available == t * available);
    }
}

} // verus!
