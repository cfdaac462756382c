//! The poll records of the admin-governed polls: polls vote yes or no,
//! hold their executions by canonical address, and the poll rules carry an
//! expiration period.
use vstd::prelude::*;
use crate::bytes::CanonicalAddr;
use crate::governance::poll::{PollStatus, VoteOption};
use crate::math::Decimal;

verus! {

/// The rules of the polls.
#[derive(Clone, Copy, Debug, PartialEq, Eq, Structural)]
pub struct PollConfig {
    pub quorum: Decimal,
    pub threshold: Decimal,
    pub voting_period: u64,
    pub execution_delay_period: u64,
    /// Blocks after the end of the vote after which an unexecuted poll expires.
    pub expiration_period: u64,
    pub proposal_deposit: u128,
    pub snapshot_period: u64,
}

/// The instantiation message of the poll rules.
#[derive(Clone, Copy, Debug, PartialEq, Eq, Structural)]
pub struct PollConfigInitMsg {
    pub quorum: Decimal,
    pub threshold: Decimal,
    pub voting_period: u64,
    pub execution_delay_period: u64,
    pub expiration_period: u64,
    pub proposal_deposit: u128,
    pub snapshot_period: u64,
}

/// The counters of the polls.
#[derive(Clone, Copy, Debug, PartialEq, Eq, Structural)]
pub struct PollState {
    pub poll_count: u64,
    pub total_deposit: u128,
}

/// A voter's vote: its option and the tokens behind it.
#[derive(Clone, Copy, Debug, PartialEq, Eq, Structural)]
pub struct VoterInfo {
    pub vote: VoteOption,
    pub balance: u128,
}

/// A call a poll makes when it is executed, to a contract by canonical address.
#[derive(Clone, Debug, PartialEq, Eq)]
pub struct Execution {
    pub order: u64,
    pub contract: CanonicalAddr,
    pub msg: Vec<u8>,
}

/// A poll.
#[derive(Clone, Debug, PartialEq, Eq)]
pub struct Poll {
    pub id: u64,
    pub title: String,
    pub description: String,
    pub link: Option<String>,
    pub executions: Option<Vec<Execution>>,
    pub creator: CanonicalAddr,
    pub deposit_amount: u128,
    pub yes_votes: u128,
    pub no_votes: u128,
    pub end_height: u64,
    pub status: PollStatus,
    /// The staked amount snapshot near the end of the vote.
    pub staked_amount: Option<u128>,
    pub total_balance_at_end_poll: Option<u128>,
}

impl Poll {
    /// Votes are taken at `block_height`.
    pub open spec fn in_progress_spec(&self, block_height: u64) -> bool {
        self.status == PollStatus::InProgress && block_height <= self.end_height
    }

    /// Whether votes are taken at `block_height`.
    pub fn in_progress(&self, block_height: u64) -> (r: bool)
        ensures
            r == self.in_progress_spec(block_height),
    {
        self.status == PollStatus::InProgress && block_height <= self.end_height
    }
}

/// The poll counters after a poll with a deposit of `deposit` is created.
pub open spec fn spec_state_after_create(s: PollState, deposit: u128) -> PollState {
    PollState {
        poll_count: (s.poll_count + 1) as u64,
        total_deposit: (s.total_deposit + deposit) as u128,
    }
}

/// Takes the next poll id and adds the poll's deposit to the total.
pub fn get_poll_id(poll_state: &mut PollState, deposit_amount: u128) -> (r: u64)
    requires
        old(poll_state).poll_count < u64::MAX,
        old(poll_state).total_deposit + deposit_amount <= u128::MAX,
    ensures
        r == old(poll_state).poll_count + 1,
        *final(poll_state) == spec_state_after_create(*old(poll_state), deposit_amount),
{
    let poll_id = poll_state.poll_count + 1;
    poll_state.poll_count = poll_state.poll_count + 1;
    poll_state.total_deposit = poll_state.total_deposit + deposit_amount;
    poll_id
}

} // verus!
