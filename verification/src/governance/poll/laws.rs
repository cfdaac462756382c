//! What holds of polls across operations.
use vstd::prelude::*;
use crate::governance::poll::executions::{end_poll_response, spec_voted_poll, vote_count, with_vote};
use crate::governance::poll::{
    Poll, PollConfig, PollResult, PollState, VoteOption, lemma_ratio_at_most_one,
    spec_poll_result, spec_quorum, spec_quorum_base, spec_state_after_create,
    spec_state_after_end, spec_tallied,
};
use crate::math::{lemma_le_div, spec_ratio_atomics};
use crate::messages::transfer_msg;

verus! {

/// A larger numerator gives a ratio at least as large.
proof fn lemma_ratio_monotone(a: int, b: int, d: int)
    requires
        0 <= a <= b,
        d > 0,
    ensures
        spec_ratio_atomics(a, d) <= spec_ratio_atomics(b, d),
{
    let k: int = 1_000_000_000_000_000_000;
    assert(a * k <= b * k) by (nonlinear_arith)
        requires
            a <= b,
            k > 0,
    ;
    vstd::arithmetic::div_mod::lemma_div_is_ordered(a * k, b * k, d);
}

/// Adding `a` yes votes does not lower the share of yes votes.
proof fn lemma_yes_share_grows(y: int, n: int, a: int)
    requires
        y >= 0,
        n >= 0,
        a >= 0,
        y + n > 0,
    ensures
        spec_ratio_atomics(y, y + n) <= spec_ratio_atomics(y + a, y + a + n),
{
    let k: int = 1_000_000_000_000_000_000;
    let q = spec_ratio_atomics(y, y + n);
    lemma_ratio_at_most_one(y, y + n);
    vstd::arithmetic::div_mod::lemma_fundamental_div_mod(y * k, y + n);
    vstd::arithmetic::div_mod::lemma_mod_bound(y * k, y + n);
    assert(q * (y + n) <= y * k) by (nonlinear_arith)
        requires
            y * k == (y + n) * q + (y * k) % (y + n),
            (y * k) % (y + n) >= 0,
    ;
    assert(q * (y + a + n) <= (y + a) * k) by (nonlinear_arith)
        requires
            q * (y + n) <= y * k,
            0 <= q <= k,
            a >= 0,
    ;
    lemma_le_div(q, y + a + n, (y + a) * k);
}

/// A poll's deposit is added to the total deposit when the poll is created
/// and taken off again when the vote on it ends: the total after both is the
/// total before, the poll count is one higher, and the total after creation
/// always covers the deposit, so ending the poll cannot fail on it.
pub proof fn law_deposit_round_trip(s: PollState, p: Poll)
    requires
        s.poll_count < u64::MAX,
        s.total_deposit + p.deposit_amount <= u128::MAX,
    ensures
        spec_state_after_create(s, p.deposit_amount).total_deposit >= p.deposit_amount,
        spec_state_after_end(spec_state_after_create(s, p.deposit_amount), p) == (PollState {
            poll_count: (s.poll_count + 1) as u64,
            ..s
        }),
{
}

/// A vote adds exactly its amount to the count of its option and to the
/// votes cast, and leaves the other counts as they were.
pub proof fn law_vote_adds_amount(
    p: Poll,
    config: PollConfig,
    block_height: u64,
    available: u128,
    option: VoteOption,
    amount: u128,
)
    requires
        vote_count(p, option) + amount <= u128::MAX,
    ensures
        ({
            let v = spec_voted_poll(p, config, block_height, available, option, amount);
            &&& spec_tallied(v) == spec_tallied(p) + amount
            &&& vote_count(v, option) == vote_count(p, option) + amount
            &&& forall|o: VoteOption| o != option ==> vote_count(v, o) == vote_count(p, o)
        }),
{
}

/// The staked amount is snapshot at most once: a vote never changes a
/// snapshot that was taken, and a vote within the snapshot period leaves a
/// snapshot behind.
pub proof fn law_snapshot_once(
    p: Poll,
    config: PollConfig,
    block_height: u64,
    available: u128,
    option: VoteOption,
    amount: u128,
)
    ensures
        ({
            let v = spec_voted_poll(p, config, block_height, available, option, amount);
            &&& p.snapped_staked_amount is Some ==> v.snapped_staked_amount
                == p.snapped_staked_amount
            &&& p.end_height - block_height <= config.snapshot_period
                ==> v.snapped_staked_amount is Some
        }),
{
}

/// A poll on which nobody voted never reaches the quorum, whatever the
/// quorum and the staked amount.
pub proof fn law_no_votes_no_quorum(p: Poll, config: PollConfig, quorum: int)
    requires
        spec_tallied(p) == 0,
    ensures
        spec_poll_result(p, config, quorum) == PollResult::QuorumNotReached,
{
}

/// Ending a poll refunds its deposit to its creator exactly when the quorum
/// was reached and there is a deposit; the refund is the only message.
pub proof fn law_refund_iff_quorum(
    governance_token: Seq<char>,
    p: Poll,
    poll_id: u64,
    result: PollResult,
)
    ensures
        ({
            let msgs = end_poll_response(governance_token, p, poll_id, result).messages;
            &&& result != PollResult::QuorumNotReached && p.deposit_amount != 0 ==> msgs == seq![
                transfer_msg(governance_token, p.creator@, p.deposit_amount),
            ]
            &&& !(result != PollResult::QuorumNotReached && p.deposit_amount != 0) ==> msgs.len()
                == 0
        }),
{
}

/// A yes vote never turns a passing poll into a failing one: with the staked
/// amount held fixed (as a snapshot does), a poll that passes still passes
/// after more yes votes.
pub proof fn law_yes_vote_keeps_passed(
    p: Poll,
    config: PollConfig,
    total_share: u128,
    available: int,
    amount: u128,
)
    requires
        total_share != 0 ==> spec_quorum_base(p, total_share, available) > 0,
        p.yes_votes + amount <= u128::MAX,
        spec_poll_result(p, config, spec_quorum(p, total_share, available)) == PollResult::Passed,
    ensures
        ({
            let v = with_vote(p, VoteOption::Yes, amount);
            spec_poll_result(v, config, spec_quorum(v, total_share, available))
                == PollResult::Passed
        }),
{
    let v = with_vote(p, VoteOption::Yes, amount);
    assert(spec_tallied(v) == spec_tallied(p) + amount);
    assert(spec_quorum_base(v, total_share, available) == spec_quorum_base(
        p,
        total_share,
        available,
    ));
    if total_share != 0 {
        lemma_ratio_monotone(
            spec_tallied(p),
            spec_tallied(v),
            spec_quorum_base(p, total_share, available),
        );
    }
    lemma_yes_share_grows(p.yes_votes as int, p.no_votes as int, amount as int);
}

/// A snapshot pins the quorum: once the staked amount is snapshot, tokens
/// staked or unstaked later change neither the amount the quorum is measured
/// against nor the result of the poll.
pub proof fn law_snapshot_pins_quorum(
    p: Poll,
    config: PollConfig,
    total_share: u128,
    available: int,
    later_available: int,
)
    requires
        p.snapped_staked_amount is Some,
    ensures
        spec_quorum_base(p, total_share, available) == spec_quorum_base(
            p,
            total_share,
            later_available,
        ),
        spec_poll_result(p, config, spec_quorum(p, total_share, available)) == spec_poll_result(
            p,
            config,
            spec_quorum(p, total_share, later_available),
        ),
{
}

/// A poll passes exactly when it reached the quorum and more than the
/// threshold of its yes and no votes are yes: a passed poll always has a yes
/// share, in atomics of eighteen decimals, strictly above `config.threshold`;
/// a poll that reached the quorum with a yes share at or below the threshold
/// fails on the threshold, whatever `config.quorum` says.
pub proof fn law_passed_exactly_above_threshold(p: Poll, config: PollConfig, quorum: int)
    ensures
        spec_poll_result(p, config, quorum) == PollResult::Passed ==> {
            &&& p.yes_votes + p.no_votes > 0
            &&& (p.yes_votes * 1_000_000_000_000_000_000int) / (p.yes_votes + p.no_votes)
                > config.threshold.atomics
        },
        p.yes_votes + p.no_votes + p.abstain_votes > 0 && quorum >= config.quorum.atomics ==> {
            &&& p.yes_votes + p.no_votes > 0 && (p.yes_votes * 1_000_000_000_000_000_000int) / (
            p.yes_votes + p.no_votes) > config.threshold.atomics ==> spec_poll_result(
                p,
                config,
                quorum,
            ) == PollResult::Passed
            &&& !(p.yes_votes + p.no_votes > 0 && (p.yes_votes * 1_000_000_000_000_000_000int) / (
            p.yes_votes + p.no_votes) > config.threshold.atomics) ==> spec_poll_result(
                p,
                config,
                quorum,
            ) == PollResult::ThresholdNotReached
        },
        p.yes_votes + p.no_votes + p.abstain_votes == 0 || quorum < config.quorum.atomics
            ==> spec_poll_result(p, config, quorum) == PollResult::QuorumNotReached,
{
}

} // verus!
