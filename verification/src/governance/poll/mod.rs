//! Polls: what they are, how they count votes and how they are decided.
pub mod contracts;
pub mod executions;
pub mod laws;
pub mod state;
pub mod queries;

use vstd::prelude::*;
use crate::errors::{
    StdError, checked_sub, is_std_generic_err, is_sub_overflow, std_generic_err,
};
use crate::governance::staking::{StakerState, StakingState};
use crate::math::{Decimal, spec_ratio_atomics};
use crate::messages::{ExecutionMsg, ExecutionMsgView};

verus! {

broadcast use vstd::seq_lib::group_to_multiset_ensures;

/// The life of a poll.
#[derive(Clone, Copy, Debug, PartialEq, Eq, Structural)]
pub enum PollStatus {
    InProgress,
    Passed,
    Rejected,
    Executed,
    Expired,
    Failed,
}

/// A vote.
#[derive(Clone, Copy, Debug, PartialEq, Eq, Structural)]
pub enum VoteOption {
    Yes,
    No,
    Abstain,
}

/// How a poll ended.
#[derive(Clone, Copy, Debug, PartialEq, Eq, Structural)]
pub enum PollResult {
    Passed,
    QuorumNotReached,
    ThresholdNotReached,
}

/// The name of a status.
pub open spec fn spec_status_str(s: PollStatus) -> Seq<char> {
    match s {
        PollStatus::InProgress => "in_progress"@,
        PollStatus::Passed => "passed"@,
        PollStatus::Rejected => "rejected"@,
        PollStatus::Executed => "executed"@,
        PollStatus::Expired => "expired"@,
        PollStatus::Failed => "failed"@,
    }
}

/// The name of a vote option.
pub open spec fn spec_option_str(o: VoteOption) -> Seq<char> {
    match o {
        VoteOption::Yes => "yes"@,
        VoteOption::No => "no"@,
        VoteOption::Abstain => "abstain"@,
    }
}

/// The name of a poll result.
pub open spec fn spec_result_str(r: PollResult) -> Seq<char> {
    match r {
        PollResult::Passed => "passed"@,
        PollResult::QuorumNotReached => "quorum_not_reached"@,
        PollResult::ThresholdNotReached => "threshold_not_reached"@,
    }
}

impl PollStatus {
    /// The name of the status.
    pub fn to_string(&self) -> (r: String)
        ensures
            r@ == spec_status_str(*self),
    {
        match self {
            PollStatus::InProgress => String::from_str("in_progress"),
            PollStatus::Passed => String::from_str("passed"),
            PollStatus::Rejected => String::from_str("rejected"),
            PollStatus::Executed => String::from_str("executed"),
            PollStatus::Expired => String::from_str("expired"),
            PollStatus::Failed => String::from_str("failed"),
        }
    }
}

impl VoteOption {
    /// The name of the option.
    pub fn to_string(&self) -> (r: String)
        ensures
            r@ == spec_option_str(*self),
    {
        match self {
            VoteOption::Yes => String::from_str("yes"),
            VoteOption::No => String::from_str("no"),
            VoteOption::Abstain => String::from_str("abstain"),
        }
    }
}

impl PollResult {
    /// The name of the result.
    pub fn to_string(&self) -> (r: String)
        ensures
            r@ == spec_result_str(*self),
    {
        match self {
            PollResult::Passed => String::from_str("passed"),
            PollResult::QuorumNotReached => String::from_str("quorum_not_reached"),
            PollResult::ThresholdNotReached => String::from_str("threshold_not_reached"),
        }
    }
}

/// The rules of the polls.
#[derive(Clone, Copy, Debug, PartialEq, Eq, Structural)]
pub struct PollConfig {
    /// The share of the staked tokens that must vote.
    pub quorum: Decimal,
    /// The share of the yes and no votes that must be yes.
    pub threshold: Decimal,
    /// Blocks from creation to the end of the vote.
    pub voting_period: u64,
    /// Blocks from the end of the vote until a passed poll may be executed.
    pub execution_delay_period: u64,
    /// The least deposit a poll needs.
    pub proposal_deposit: u128,
    /// Blocks before the end of the vote in which the staked amount is snapshot.
    pub snapshot_period: u64,
}

/// The counters of the polls.
#[derive(Clone, Copy, Debug, PartialEq, Eq, Structural)]
pub struct PollState {
    pub poll_count: u64,
    /// The deposits of the polls that have not ended.
    pub total_deposit: u128,
}

/// The poll that is being executed, between `execute_poll` and its reply.
#[derive(Clone, Copy, Debug, PartialEq, Eq, Structural)]
pub struct PollExecutionContext {
    pub poll_id: u64,
    pub execution_count: u64,
}

/// The replies still due from a poll's executions once the first reply has
/// recorded its outcome.
#[derive(Clone, Copy, Debug, PartialEq, Eq, Structural)]
pub struct PollExecutionProgress {
    pub poll_id: u64,
    pub remaining: u64,
}

/// One voter's vote on a poll.
#[derive(Clone, Debug, PartialEq, Eq)]
pub struct VoteInfo {
    pub voter: String,
    pub option: VoteOption,
    pub amount: u128,
}

/// A poll.
#[derive(Clone, Debug, PartialEq, Eq)]
pub struct Poll {
    pub id: u64,
    pub creator: String,
    pub status: PollStatus,
    pub yes_votes: u128,
    pub no_votes: u128,
    pub abstain_votes: u128,
    /// The last height at which votes are taken.
    pub end_height: u64,
    pub title: String,
    pub description: String,
    pub link: Option<String>,
    /// The calls the poll makes when it is executed.
    pub executions: Vec<ExecutionMsg>,
    pub deposit_amount: u128,
    pub total_balance_at_end_poll: Option<u128>,
    /// The staked amount snapshot near the end of the vote.
    pub snapped_staked_amount: Option<u128>,
}

impl VoteInfo {
    /// A copy of the vote.
    pub fn copy(&self) -> (r: VoteInfo)
        ensures
            r == *self,
    {
        VoteInfo { voter: self.voter.clone(), option: self.option, amount: self.amount }
    }
}

/// The views of a poll's executions.
pub open spec fn executions_view(executions: Seq<ExecutionMsg>) -> Seq<ExecutionMsgView> {
    executions.map_values(|e: ExecutionMsg| e@)
}

/// The executions are in increasing order.
pub open spec fn sorted_by_order(s: Seq<ExecutionMsgView>) -> bool {
    forall|i: int, j: int| 0 <= i <= j < s.len() ==> s[i].order <= s[j].order
}

/// Whether an execution has the order `k`.
pub open spec fn has_order(k: u64) -> spec_fn(ExecutionMsgView) -> bool {
    |e: ExecutionMsgView| e.order == k
}

/// The executions of `s` with the order `k`, in their order in `s`.
pub open spec fn with_order(s: Seq<ExecutionMsgView>, k: u64) -> Seq<ExecutionMsgView> {
    s.filter(has_order(k))
}

/// Moving the first execution of least order from `rv` to the end of `sv`
/// keeps, for every order, the executions of that order in the same sequence.
proof fn lemma_select_step(sv: Seq<ExecutionMsgView>, rv: Seq<ExecutionMsgView>, best: int, k: u64)
    requires
        0 <= best < rv.len(),
        forall|l: int| 0 <= l < best ==> rv[best].order < #[trigger] rv[l].order,
    ensures
        with_order(sv.push(rv[best]), k) + with_order(rv.remove(best), k) == with_order(sv, k)
            + with_order(rv, k),
{
    let p = has_order(k);
    let e = rv[best];
    let a = rv.take(best);
    let b = rv.skip(best + 1);
    assert(rv =~= a + (seq![e] + b));
    assert(rv.remove(best) =~= a + b);
    Seq::filter_distributes_over_add(a, seq![e] + b, p);
    Seq::filter_distributes_over_add(a, b, p);
    b.lemma_filter_prepend(e, p);
    sv.lemma_filter_push(e, p);
    if e.order == k {
        assert(a.all(|x: ExecutionMsgView| !p(x)));
        a.lemma_all_neg_filter_empty(p);
        assert(a.filter(p) =~= Seq::<ExecutionMsgView>::empty());
        assert(sv.filter(p).push(e) + (Seq::<ExecutionMsgView>::empty() + b.filter(p)) =~= sv.filter(
            p,
        ) + (Seq::<ExecutionMsgView>::empty() + (seq![e] + b.filter(p))));
    }
}

/// A copy of an execution.
pub fn copy_execution(e: &ExecutionMsg) -> (r: ExecutionMsg)
    ensures
        r@ == e@,
{
    ExecutionMsg { order: e.order, contract: e.contract.clone(), msg: e.msg.clone() }
}

/// The executions sorted by their order; executions with the same order keep
/// their relative position.
pub fn sort_executions(executions: &Vec<ExecutionMsg>) -> (r: Vec<ExecutionMsg>)
    ensures
        r@.len() == executions@.len(),
        sorted_by_order(executions_view(r@)),
        executions_view(r@).to_multiset() == executions_view(executions@).to_multiset(),
        forall|k: u64|
            #[trigger] with_order(executions_view(r@), k) == with_order(
                executions_view(executions@),
                k,
            ),
{
    let mut remaining: Vec<ExecutionMsg> = Vec::new();
    let mut k: usize = 0;
    while k < executions.len()
        invariant
            k <= executions.len(),
            remaining@.len() == k,
            forall|i: int| 0 <= i < k ==> (#[trigger] remaining@[i])@ == executions@[i]@,
        decreases executions.len() - k,
    {
        let c = copy_execution(&executions[k]);
        remaining.push(c);
        k = k + 1;
    }
    proof {
        assert(executions_view(remaining@) =~= executions_view(executions@));
    }
    let mut sorted: Vec<ExecutionMsg> = Vec::new();
    while remaining.len() > 0
        invariant
            sorted_by_order(executions_view(sorted@)),
            forall|i: int, j: int|
                0 <= i < sorted@.len() && 0 <= j < remaining@.len() ==> sorted@[i].order
                    <= remaining@[j].order,
            executions_view(sorted@).to_multiset().add(executions_view(remaining@).to_multiset())
                == executions_view(executions@).to_multiset(),
            forall|k: u64|
                #[trigger] with_order(executions_view(executions@), k) == with_order(
                    executions_view(sorted@),
                    k,
                ) + with_order(executions_view(remaining@), k),
        decreases remaining.len(),
    {
        let n = remaining.len();
        let mut best: usize = 0;
        let mut j: usize = 1;
        while j < n
            invariant
                n == remaining@.len(),
                1 <= j <= n,
                best < j,
                forall|l: int| 0 <= l < j ==> remaining@[best as int].order <= remaining@[l].order,
                forall|l: int|
                    0 <= l < best ==> remaining@[best as int].order < #[trigger] remaining@[l].order,
            decreases n - j,
        {
            if remaining[j].order < remaining[best].order {
                best = j;
            }
            j = j + 1;
        }
        let ghost rem = remaining@;
        let ghost srt = sorted@;
        let e = remaining.remove(best);
        proof {
            assert(executions_view(remaining@) =~= executions_view(rem).remove(best as int));
            assert(executions_view(rem)[best as int] == e@);
            vstd::seq_lib::to_multiset_remove(executions_view(rem), best as int);
        }
        sorted.push(e);
        proof {
            assert(executions_view(sorted@) =~= executions_view(srt).push(e@));
            assert(forall|l: int| 0 <= l < remaining@.len() ==> #[trigger] remaining@[l] == rem[
                if l < best {
                    l
                } else {
                    l + 1
                }
            ]);
            assert(executions_view(sorted@).to_multiset().add(
                executions_view(remaining@).to_multiset(),
            ) =~= executions_view(srt).to_multiset().add(executions_view(rem).to_multiset()));
            assert forall|k: u64|
                #[trigger] with_order(executions_view(executions@), k) == with_order(
                    executions_view(sorted@),
                    k,
                ) + with_order(executions_view(remaining@), k) by {
                assert(forall|l: int|
                    0 <= l < best ==> executions_view(rem)[best as int].order
                        < #[trigger] executions_view(rem)[l].order);
                lemma_select_step(executions_view(srt), executions_view(rem), best as int, k);
            }
        }
    }
    proof {
        assert(executions_view(remaining@) =~= Seq::<ExecutionMsgView>::empty());
        assert(executions_view(remaining@).to_multiset() =~= vstd::multiset::Multiset::empty());
        assert(executions_view(sorted@).to_multiset().add(
            executions_view(remaining@).to_multiset(),
        ) =~= executions_view(sorted@).to_multiset());
        assert(executions_view(sorted@).len() == executions_view(sorted@).to_multiset().len());
        assert(executions_view(executions@).len() == executions_view(
            executions@,
        ).to_multiset().len());
        assert forall|k: u64|
            #[trigger] with_order(executions_view(sorted@), k) == with_order(
                executions_view(executions@),
                k,
            ) by {
            reveal(Seq::filter);
            assert(with_order(executions_view(remaining@), k) =~= Seq::<ExecutionMsgView>::empty());
            assert(with_order(executions_view(sorted@), k) + Seq::<ExecutionMsgView>::empty()
                =~= with_order(executions_view(sorted@), k));
        }
    }
    sorted
}

/// All the votes cast on `p`.
pub open spec fn spec_tallied(p: Poll) -> int {
    p.yes_votes + p.no_votes + p.abstain_votes
}

/// The staked amount the quorum of `p` is measured against: nothing when
/// nothing is staked, else the snapshot when there is one, else the amount
/// available now.
pub open spec fn spec_quorum_base(p: Poll, total_share: u128, available: int) -> int {
    if total_share == 0 {
        0
    } else if p.snapped_staked_amount is Some {
        p.snapped_staked_amount->Some_0 as int
    } else {
        available
    }
}

/// The share of the staked amount that voted on `p`, as decimal atomics.
pub open spec fn spec_quorum(p: Poll, total_share: u128, available: int) -> int {
    if total_share == 0 {
        0
    } else {
        spec_ratio_atomics(spec_tallied(p), spec_quorum_base(p, total_share, available))
    }
}

/// The result of `p` for a quorum `quorum`: the quorum must be reached by a
/// non-zero vote, and more than the threshold of the yes and no votes must
/// be yes (abstentions count towards the quorum only).
pub open spec fn spec_poll_result(p: Poll, config: PollConfig, quorum: int) -> PollResult {
    if spec_tallied(p) == 0 || quorum < config.quorum.atomics {
        PollResult::QuorumNotReached
    } else if p.yes_votes + p.no_votes > 0 && spec_ratio_atomics(
        p.yes_votes as int,
        p.yes_votes + p.no_votes,
    ) > config.threshold.atomics {
        PollResult::Passed
    } else {
        PollResult::ThresholdNotReached
    }
}

/// The available amount is read to decide `p`.
pub open spec fn needs_available(p: Poll, total_share: u128) -> bool {
    total_share != 0 && p.snapped_staked_amount is None
}

/// Deciding `p` stays within 128 bits and divides by a non-zero staked amount,
/// when the available amount is `available`.
pub open spec fn result_defined(p: Poll, total_share: u128, available: int) -> bool {
    &&& spec_tallied(p) <= u128::MAX
    &&& total_share != 0 ==> spec_quorum_base(p, total_share, available) != 0
        && spec_quorum(p, total_share, available) <= u128::MAX
}

pub(crate) proof fn lemma_ratio_at_most_one(a: int, b: int)
    requires
        0 <= a <= b,
        b > 0,
    ensures
        0 <= spec_ratio_atomics(a, b) <= 1_000_000_000_000_000_000,
{
    let k: int = 1_000_000_000_000_000_000;
    assert(a * k <= b * k) by (nonlinear_arith)
        requires
            a <= b,
            k > 0,
    ;
    assert(a * k >= 0) by (nonlinear_arith)
        requires
            a >= 0,
            k > 0,
    ;
    assert((a * k) / b <= k) by (nonlinear_arith)
        requires
            a * k <= b * k,
            b > 0,
            k > 0,
    ;
    assert((a * k) / b >= 0) by (nonlinear_arith)
        requires
            a * k >= 0,
            b > 0,
    ;
}

impl Poll {
    /// Votes are taken at `block_height`.
    pub open spec fn in_progress_spec(&self, block_height: u64) -> bool {
        self.status == PollStatus::InProgress && block_height <= self.end_height
    }

    /// Whether votes are taken at `block_height`.
    pub fn in_progress(&self, block_height: u64) -> (r: bool)
        ensures
            r == self.in_progress_spec(block_height),
    {
        self.status == PollStatus::InProgress && block_height <= self.end_height
    }

    /// Counts the vote of `voter` for `amount` tokens and records it with the
    /// staker; the vote is returned to be stored with the poll.
    pub fn vote(
        &mut self,
        staker_state: &mut StakerState,
        voter: String,
        option: VoteOption,
        amount: u128,
    ) -> (r: VoteInfo)
        requires
            option == VoteOption::Yes ==> old(self).yes_votes + amount <= u128::MAX,
            option == VoteOption::No ==> old(self).no_votes + amount <= u128::MAX,
            option == VoteOption::Abstain ==> old(self).abstain_votes + amount <= u128::MAX,
        ensures
            r == (VoteInfo { voter, option, amount }),
            final(self).yes_votes == old(self).yes_votes + (if option == VoteOption::Yes {
                amount
            } else {
                0
            }),
            final(self).no_votes == old(self).no_votes + (if option == VoteOption::No {
                amount
            } else {
                0
            }),
            final(self).abstain_votes == old(self).abstain_votes + (
            if option == VoteOption::Abstain {
                amount
            } else {
                0
            }),
            *final(self) == (Poll {
                yes_votes: final(self).yes_votes,
                no_votes: final(self).no_votes,
                abstain_votes: final(self).abstain_votes,
                ..*old(self)
            }),
            final(staker_state).address == old(staker_state).address,
            final(staker_state).share == old(staker_state).share,
            final(staker_state).votes@ == old(staker_state).votes@.push((old(self).id, r)),
    {
        match option {
            VoteOption::Yes => {
                self.yes_votes = self.yes_votes + amount;
            },
            VoteOption::No => {
                self.no_votes = self.no_votes + amount;
            },
            VoteOption::Abstain => {
                self.abstain_votes = self.abstain_votes + amount;
            },
        }
        let vote_info = VoteInfo { voter, option, amount };
        staker_state.vote(self.id, vote_info.copy());
        vote_info
    }

    /// Records `available` as the staked amount the quorum is measured
    /// against. This is only done within the snapshot period before the end
    /// of the vote, and only once.
    pub fn snapshot_staked_amount(
        &mut self,
        poll_config: &PollConfig,
        block_height: u64,
        available: u128,
    ) -> (r: Result<u128, StdError>)
        requires
            block_height <= old(self).end_height,
        ensures
            old(self).end_height - block_height > poll_config.snapshot_period ==> r is Err
                && is_std_generic_err(r->Err_0, "Cannot snapshot at this height"@),
            old(self).end_height - block_height <= poll_config.snapshot_period
                && old(self).snapped_staked_amount is Some ==> r is Err && is_std_generic_err(
                r->Err_0,
                "Snapshot has already occurred"@,
            ),
            r is Err ==> *final(self) == *old(self),
            old(self).end_height - block_height <= poll_config.snapshot_period
                && old(self).snapped_staked_amount is None ==> r == Ok::<u128, StdError>(available)
                && *final(self) == (Poll { snapped_staked_amount: Some(available), ..*old(self) }),
    {
        let time_to_end = self.end_height - block_height;
        if time_to_end > poll_config.snapshot_period {
            return Err(std_generic_err("Cannot snapshot at this height"));
        }
        if self.snapped_staked_amount.is_some() {
            return Err(std_generic_err("Snapshot has already occurred"));
        }
        self.snapped_staked_amount = Some(available);
        Ok(available)
    }

    /// Decides the poll: its result and the staked amount its quorum was
    /// measured against. The available amount (`contract_balance` less the
    /// deposits) is read only when the quorum needs it, and then it is an error
    /// when the deposits exceed the balance.
    pub fn get_result(
        &self,
        poll_config: &PollConfig,
        staking_state: &StakingState,
        contract_balance: u128,
        poll_state: &PollState,
    ) -> (r: Result<(PollResult, u128), StdError>)
        requires
            result_defined(
                *self,
                staking_state.total_share,
                contract_balance - poll_state.total_deposit,
            ) || (needs_available(*self, staking_state.total_share) && contract_balance
                < poll_state.total_deposit && spec_tallied(*self) <= u128::MAX),
        ensures
            needs_available(*self, staking_state.total_share) && contract_balance
                < poll_state.total_deposit ==> r is Err && is_sub_overflow(
                r->Err_0,
                contract_balance,
                poll_state.total_deposit,
            ),
            !(needs_available(*self, staking_state.total_share) && contract_balance
                < poll_state.total_deposit) ==> ({
                let available = contract_balance - poll_state.total_deposit;
                r == Ok::<(PollResult, u128), StdError>(
                    (
                        spec_poll_result(
                            *self,
                            *poll_config,
                            spec_quorum(*self, staking_state.total_share, available),
                        ),
                        spec_quorum_base(*self, staking_state.total_share, available) as u128,
                    ),
                )
            }),
    {
        let yes = self.yes_votes;
        let no = self.no_votes;
        let abstain = self.abstain_votes;
        let tallied_weight = yes + no + abstain;
        let ghost available = contract_balance - poll_state.total_deposit;
        let (quorum, staked_weight) = if staking_state.total_share == 0 {
            (Decimal::zero(), 0u128)
        } else if let Some(staked_amount) = self.snapped_staked_amount {
            (Decimal::from_ratio(tallied_weight, staked_amount), staked_amount)
        } else {
            let staked_weight = match checked_sub(contract_balance, poll_state.total_deposit) {
                Ok(v) => v,
                Err(e) => {
                    return Err(e);
                },
            };
            (Decimal::from_ratio(tallied_weight, staked_weight), staked_weight)
        };
        let poll_result = if tallied_weight == 0 || quorum.atomics < poll_config.quorum.atomics {
            PollResult::QuorumNotReached
        } else if yes + no > 0 && {
            proof {
                lemma_ratio_at_most_one(yes as int, yes + no);
            }
            Decimal::from_ratio(yes, yes + no).atomics > poll_config.threshold.atomics
        } {
            PollResult::Passed
        } else {
            PollResult::ThresholdNotReached
        };
        Ok((poll_result, staked_weight))
    }
}

/// The poll counters after a poll with a deposit of `deposit` is created.
pub open spec fn spec_state_after_create(s: PollState, deposit: u128) -> PollState {
    PollState {
        poll_count: (s.poll_count + 1) as u64,
        total_deposit: (s.total_deposit + deposit) as u128,
    }
}

/// The poll counters after the vote on `p` ends: its deposit leaves the total.
pub open spec fn spec_state_after_end(s: PollState, p: Poll) -> PollState {
    PollState { total_deposit: (s.total_deposit - p.deposit_amount) as u128, ..s }
}

/// Takes the next poll id and adds the poll's deposit to the total.
pub fn get_poll_id(poll_state: &mut PollState, deposit_amount: u128) -> (r: u64)
    requires
        old(poll_state).poll_count < u64::MAX,
        old(poll_state).total_deposit + deposit_amount <= u128::MAX,
    ensures
        r == old(poll_state).poll_count + 1,
        *final(poll_state) == spec_state_after_create(*old(poll_state), deposit_amount),
{
    let poll_id = poll_state.poll_count + 1;
    poll_state.poll_count = poll_state.poll_count + 1;
    poll_state.total_deposit = poll_state.total_deposit + deposit_amount;
    poll_id
}

} // verus!
