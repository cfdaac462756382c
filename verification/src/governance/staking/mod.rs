//! Staking of the governance token: stakers own shares of the staked tokens.
pub mod executions;
pub mod queries;
pub mod state;

use vstd::prelude::*;
use crate::governance::poll::VoteInfo;
use crate::math::{checked_multiply_ratio, multiply_ratio, spec_multiply_ratio};

verus! {

/// The configuration of staking.
#[derive(Clone, Debug, PartialEq, Eq)]
pub struct StakingConfig {
    /// The contract asked to distribute rewards before each stake change.
    pub distributor: Option<String>,
}

/// The total of the stakers' shares.
#[derive(Clone, Copy, Debug, PartialEq, Eq, Structural)]
pub struct StakingState {
    pub total_share: u128,
}

/// One staker's shares and votes.
#[derive(Clone, Debug, PartialEq, Eq)]
pub struct StakerState {
    pub address: String,
    pub share: u128,
    /// The staker's votes, with the poll each is on.
    pub votes: Vec<(u64, VoteInfo)>,
}

/// The largest amount among `votes`, or zero.
pub open spec fn spec_max_vote(votes: Seq<(u64, VoteInfo)>) -> u128
    decreases votes.len(),
{
    if votes.len() == 0 {
        0
    } else {
        let rest = spec_max_vote(votes.drop_last());
        if votes.last().1.amount > rest {
            votes.last().1.amount
        } else {
            rest
        }
    }
}

/// The votes `votes[i]` for which `keep[i]` holds, in their order.
pub open spec fn spec_kept_votes(votes: Seq<(u64, VoteInfo)>, keep: Seq<bool>) -> Seq<
    (u64, VoteInfo),
>
    decreases votes.len(),
{
    if votes.len() == 0 {
        seq![]
    } else {
        let rest = spec_kept_votes(votes.drop_last(), keep.take(votes.len() - 1));
        if keep[votes.len() - 1] {
            rest.push(votes.last())
        } else {
            rest
        }
    }
}

/// The tokens that `share` shares are worth: the available amount divided
/// over all shares (nothing when there are no shares).
pub open spec fn spec_balance(share: u128, total_share: u128, available: u128) -> int {
    if total_share == 0 {
        0
    } else {
        spec_multiply_ratio(share as int, available as int, total_share as int)
    }
}

/// Whether the worth of `share` shares, out of `total_share` standing for
/// `available` tokens, fits in 128 bits.
pub fn balance_fits(share: u128, total_share: u128, available: u128) -> (r: bool)
    ensures
        r == (spec_balance(share, total_share, available) <= u128::MAX),
{
    total_share == 0 || checked_multiply_ratio(share, available, total_share).is_some()
}

impl StakerState {
    /// A staker with no shares and no votes.
    pub fn default(address: String) -> (r: StakerState)
        ensures
            r.address == address,
            r.share == 0,
            r.votes@.len() == 0,
    {
        StakerState { address, share: 0, votes: Vec::new() }
    }

    /// Drops the votes on polls that are no longer in progress: `in_progress[i]`
    /// tells whether the poll of the `i`-th vote still is.
    pub fn clean_votes(&mut self, in_progress: &Vec<bool>)
        requires
            in_progress@.len() == old(self).votes@.len(),
        ensures
            final(self).address == old(self).address,
            final(self).share == old(self).share,
            final(self).votes@ == spec_kept_votes(old(self).votes@, in_progress@),
    {
        let mut kept: Vec<(u64, VoteInfo)> = Vec::new();
        let n = self.votes.len();
        let mut i: usize = 0;
        while i < n
            invariant
                n == self.votes@.len(),
                in_progress@.len() == n,
                i <= n,
                kept@ == spec_kept_votes(self.votes@.take(i as int), in_progress@.take(i as int)),
            decreases n - i,
        {
            proof {
                assert(self.votes@.take(i + 1).drop_last() =~= self.votes@.take(i as int));
                assert(in_progress@.take(i + 1).take(i as int) =~= in_progress@.take(i as int));
            }
            if in_progress[i] {
                let v = (self.votes[i].0, self.votes[i].1.copy());
                kept.push(v);
            }
            i = i + 1;
        }
        proof {
            assert(self.votes@.take(n as int) =~= self.votes@);
            assert(in_progress@.take(n as int) =~= in_progress@);
        }
        self.votes = kept;
    }

    /// The tokens the staker's shares are worth.
    pub fn load_balance(&self, staking_state: &StakingState, contract_available_balance: u128) -> (r:
        u128)
        requires
            spec_balance(self.share, staking_state.total_share, contract_available_balance)
                <= u128::MAX,
        ensures
            r as int == spec_balance(
                self.share,
                staking_state.total_share,
                contract_available_balance,
            ),
    {
        if staking_state.total_share == 0 {
            return 0;
        }
        multiply_ratio(self.share, contract_available_balance, staking_state.total_share)
    }

    /// The largest amount the staker has voted with: the amount that stays
    /// locked while the votes last.
    pub fn get_locked_balance(&self) -> (r: u128)
        ensures
            r == spec_max_vote(self.votes@),
    {
        let n = self.votes.len();
        let mut m: u128 = 0;
        let mut i: usize = 0;
        while i < n
            invariant
                n == self.votes@.len(),
                i <= n,
                m == spec_max_vote(self.votes@.take(i as int)),
            decreases n - i,
        {
            proof {
                assert(self.votes@.take(i + 1).drop_last() =~= self.votes@.take(i as int));
            }
            if self.votes[i].1.amount > m {
                m = self.votes[i].1.amount;
            }
            i = i + 1;
        }
        proof {
            assert(self.votes@.take(n as int) =~= self.votes@);
        }
        m
    }

    /// Whether the staker's tokens cover a vote of `amount`.
    pub fn can_vote(
        &self,
        staking_state: &StakingState,
        contract_available_balance: u128,
        amount: u128,
    ) -> (r: bool)
        requires
            spec_balance(self.share, staking_state.total_share, contract_available_balance)
                <= u128::MAX,
        ensures
            r == (spec_balance(self.share, staking_state.total_share, contract_available_balance)
                >= amount),
    {
        self.load_balance(staking_state, contract_available_balance) >= amount
    }

    /// Records a vote on the poll `poll_id`.
    pub fn vote(&mut self, poll_id: u64, vote: VoteInfo)
        ensures
            final(self).address == old(self).address,
            final(self).share == old(self).share,
            final(self).votes@ == old(self).votes@.push((poll_id, vote)),
    {
        self.votes.push((poll_id, vote));
    }
}

} // verus!
