//! The poll queries of the governance contract.
use vstd::prelude::*;
use crate::errors::{ContractError, generic_err, is_generic_err};
use crate::governance::poll::{Poll, PollConfig, PollState, PollStatus, VoteInfo, VoteOption};
use crate::math::Decimal;

verus! {

/// The answer to a poll-config query.
#[derive(Clone, Copy, Debug, PartialEq, Eq, Structural)]
pub struct PollConfigResponse {
    pub quorum: Decimal,
    pub threshold: Decimal,
    pub voting_period: u64,
    pub execution_delay_period: u64,
    pub proposal_deposit: u128,
    pub snapshot_period: u64,
}

/// The answer to a poll-state query.
#[derive(Clone, Copy, Debug, PartialEq, Eq, Structural)]
pub struct PollStateResponse {
    pub poll_count: u64,
    pub total_deposit: u128,
}

/// One voter of a poll.
#[derive(Clone, Debug, PartialEq, Eq)]
pub struct VotersResponseItem {
    pub voter: String,
    pub vote: VoteOption,
    pub balance: u128,
}

/// The rules of the polls.
pub fn get_poll_config(poll_config: &PollConfig) -> (r: PollConfigResponse)
    ensures
        r == (PollConfigResponse {
            quorum: poll_config.quorum,
            threshold: poll_config.threshold,
            voting_period: poll_config.voting_period,
            execution_delay_period: poll_config.execution_delay_period,
            proposal_deposit: poll_config.proposal_deposit,
            snapshot_period: poll_config.snapshot_period,
        }),
{
    PollConfigResponse {
        quorum: poll_config.quorum,
        threshold: poll_config.threshold,
        voting_period: poll_config.voting_period,
        execution_delay_period: poll_config.execution_delay_period,
        proposal_deposit: poll_config.proposal_deposit,
        snapshot_period: poll_config.snapshot_period,
    }
}

/// The counters of the polls.
pub fn get_poll_state(poll_state: &PollState) -> (r: PollStateResponse)
    ensures
        r == (PollStateResponse {
            poll_count: poll_state.poll_count,
            total_deposit: poll_state.total_deposit,
        }),
{
    PollStateResponse { poll_count: poll_state.poll_count, total_deposit: poll_state.total_deposit }
}

/// The poll stored under the id asked for (`poll`, when there is one).
pub fn get_poll(poll: Option<Poll>) -> (r: Result<Poll, ContractError>)
    ensures
        poll is None ==> r is Err && is_generic_err(r->Err_0, "Poll does not exist"@),
        poll is Some ==> r == Ok::<Poll, ContractError>(poll->Some_0),
{
    match poll {
        Some(p) => Ok(p),
        None => Err(generic_err("Poll does not exist")),
    }
}

/// Whether the voters of `poll` are shown: they are while it is in progress.
pub open spec fn voters_shown(poll: Poll) -> bool {
    poll.status == PollStatus::InProgress
}

/// The voters of the poll asked for (`poll`, when there is one), from the
/// page `voters` of stored votes: a poll no longer in progress shows none.
pub fn query_voters(poll: Option<Poll>, voters: Vec<VoteInfo>) -> (r: Result<
    Vec<VotersResponseItem>,
    ContractError,
>)
    ensures
        poll is None ==> r is Err && is_generic_err(r->Err_0, "Poll does not exist"@),
        poll is Some && !voters_shown(poll->Some_0) ==> r is Ok && r->Ok_0@.len() == 0,
        poll is Some && voters_shown(poll->Some_0) ==> r is Ok && r->Ok_0@.len() == voters@.len()
            && forall|i: int|
            0 <= i < voters@.len() ==> (#[trigger] r->Ok_0@[i]) == (VotersResponseItem {
                voter: voters@[i].voter,
                vote: voters@[i].option,
                balance: voters@[i].amount,
            }),
{
    let poll = match poll {
        Some(p) => p,
        None => {
            return Err(generic_err("Poll does not exist"));
        },
    };
    let mut items: Vec<VotersResponseItem> = Vec::new();
    if poll.status != PollStatus::InProgress {
        return Ok(items);
    }
    let n = voters.len();
    let mut i: usize = 0;
    while i < n
        invariant
            n == voters@.len(),
            i <= n,
            items@.len() == i,
            forall|k: int|
                0 <= k < i ==> (#[trigger] items@[k]) == (VotersResponseItem {
                    voter: voters@[k].voter,
                    vote: voters@[k].option,
                    balance: voters@[k].amount,
                }),
        decreases n - i,
    {
        let v = &voters[i];
        items.push(
            VotersResponseItem { voter: v.voter.clone(), vote: v.option, balance: v.amount },
        );
        i = i + 1;
    }
    Ok(items)
}

} // verus!
