//! Ticket rewards: the stakers of the governance token earn ticket tokens by
//! a distribution schedule, in proportion to their shares.
use vstd::prelude::*;
use crate::errors::{
    ContractError, StdError, checked_sub, generic_err, is_generic_err, is_sub_overflow,
};
use crate::governance::staking::{StakerState, StakingState};
use crate::lp_staking::earned;
use crate::math::{Decimal, lemma_div_mul_le, lemma_ratio_nonneg, mul_decimal, spec_ratio_atomics};
use crate::messages::{
    ExecuteBody, Response, ResponseView, action_response, make_response, spec_decimal,
    transfer_msg, uint_to_string, with_attr, with_flag, with_msg,
};
use crate::schedule::{
    ScheduleEntry, copy_schedule, is_valid_schedule, law_no_reward_at_same_height,
    index_growth_fits, lemma_schedule_reward_nonneg, reward_growth_fits,
    schedule_distributed_amount, schedule_reward, schedule_reward_defined, spec_valid_schedule,
};

verus! {

/// The ticket token and its distribution schedule.
#[derive(Clone, Debug, PartialEq, Eq)]
pub struct TicketConfig {
    pub ticket_token: String,
    pub distribution_schedule: Vec<ScheduleEntry>,
}

/// The global ticket reward state.
#[derive(Clone, Copy, Debug, PartialEq, Eq, Structural)]
pub struct TicketState {
    pub last_distributed: u64,
    /// The tickets paid per share since the start.
    pub global_reward_index: Decimal,
}

/// One staker's ticket rewards.
#[derive(Clone, Debug, PartialEq, Eq)]
pub struct TicketStakerState {
    pub address: String,
    pub reward_index: Decimal,
    pub pending_reward: u128,
}

/// The instantiation message of the ticket rewards.
#[derive(Clone, Debug, PartialEq, Eq)]
pub struct TicketConfigInitMsg {
    pub ticket_token: String,
    pub distribution_schedule: Vec<ScheduleEntry>,
}

/// The answer to a ticket-staker-state query.
#[derive(Clone, Debug, PartialEq, Eq)]
pub struct TicketStateResponse {
    pub address: String,
    pub reward_index: Decimal,
    pub pending_reward: u128,
}

/// The ticket state after the tickets of the schedule are distributed up to
/// `height` over `total_share` shares (with no shares the index stays).
pub open spec fn spec_distribute(
    s: TicketState,
    total_share: u128,
    schedule: Seq<ScheduleEntry>,
    height: u64,
) -> TicketState {
    if total_share == 0 {
        TicketState { last_distributed: height, ..s }
    } else {
        TicketState {
            last_distributed: height,
            global_reward_index: Decimal {
                atomics: (s.global_reward_index.atomics + spec_ratio_atomics(
                    schedule_reward(schedule, s.last_distributed, height),
                    total_share as int,
                )) as u128,
            },
        }
    }
}

/// `compute_distributed_reward` stays within 128 bits.
pub open spec fn distribute_defined(
    s: TicketState,
    total_share: u128,
    schedule: Seq<ScheduleEntry>,
    height: u64,
) -> bool {
    total_share != 0 ==> {
        &&& schedule_reward_defined(schedule, s.last_distributed, height)
        &&& s.global_reward_index.atomics + spec_ratio_atomics(
            schedule_reward(schedule, s.last_distributed, height),
            total_share as int,
        ) <= u128::MAX
    }
}

/// The staker's reward can be brought up to the index of `s`.
pub open spec fn ticket_reward_ok(share: u128, t: TicketStakerState, s: TicketState) -> bool {
    earned(share, s.global_reward_index.atomics) >= earned(share, t.reward_index.atomics)
}

/// `compute_staker_reward` stays within 128 bits.
pub open spec fn ticket_reward_defined(share: u128, t: TicketStakerState, s: TicketState) -> bool {
    &&& earned(share, s.global_reward_index.atomics) <= u128::MAX
    &&& earned(share, t.reward_index.atomics) <= u128::MAX
    &&& ticket_reward_ok(share, t, s) ==> t.pending_reward + earned(
        share,
        s.global_reward_index.atomics,
    ) - earned(share, t.reward_index.atomics) <= u128::MAX
}

/// The staker's pending tickets once its reward is brought up to `s`.
pub open spec fn spec_ticket_pending(share: u128, t: TicketStakerState, s: TicketState) -> int {
    t.pending_reward + earned(share, s.global_reward_index.atomics) - earned(
        share,
        t.reward_index.atomics,
    )
}

/// `e` is the error of bringing the tickets of `share` shares up to the index
/// of `s` while the staker's own index stands above: the underflow of the
/// earned amounts.
pub open spec fn is_ticket_underflow(e: StdError, share: u128, t: TicketStakerState, s: TicketState) -> bool {
    is_sub_overflow(
        e,
        earned(share, s.global_reward_index.atomics) as u128,
        earned(share, t.reward_index.atomics) as u128,
    )
}

impl TicketState {
    /// No tickets distributed yet.
    pub fn default() -> (r: TicketState)
        ensures
            r.last_distributed == 0,
            r.global_reward_index.atomics == 0,
    {
        TicketState { last_distributed: 0, global_reward_index: Decimal::zero() }
    }

    /// Distributes the tickets of the schedule up to `block_height` over
    /// the staked shares.
    pub fn compute_distributed_reward(
        &mut self,
        staking_state: &StakingState,
        config: &TicketConfig,
        block_height: u64,
    )
        requires
            distribute_defined(
                *old(self),
                staking_state.total_share,
                config.distribution_schedule@,
                block_height,
            ),
        ensures
            *final(self) == spec_distribute(
                *old(self),
                staking_state.total_share,
                config.distribution_schedule@,
                block_height,
            ),
    {
        if staking_state.total_share == 0 {
            self.last_distributed = block_height;
            return ;
        }
        let distributed_amount = schedule_distributed_amount(
            &config.distribution_schedule,
            self.last_distributed,
            block_height,
        );
        proof {
            lemma_ratio_nonneg(distributed_amount as int, staking_state.total_share as int);
        }
        let ratio = Decimal::from_ratio(distributed_amount, staking_state.total_share);
        self.last_distributed = block_height;
        self.global_reward_index = self.global_reward_index.add(ratio);
    }
}

impl TicketStakerState {
    /// A staker with no tickets.
    pub fn default(address: String) -> (r: TicketStakerState)
        ensures
            r.address == address,
            r.reward_index.atomics == 0,
            r.pending_reward == 0,
    {
        TicketStakerState { address, reward_index: Decimal::zero(), pending_reward: 0 }
    }

    /// Moves the tickets that the staker's shares earned since its last
    /// computation into its pending tickets.
    pub fn compute_staker_reward(&mut self, staker_state: &StakerState, ticket_state: &TicketState) -> (r:
        Result<(), StdError>)
        requires
            ticket_reward_defined(staker_state.share, *old(self), *ticket_state),
        ensures
            !ticket_reward_ok(staker_state.share, *old(self), *ticket_state) ==> r is Err
                && *final(self) == *old(self) && is_sub_overflow(
                r->Err_0,
                earned(staker_state.share, ticket_state.global_reward_index.atomics) as u128,
                earned(staker_state.share, old(self).reward_index.atomics) as u128,
            ),
            ticket_reward_ok(staker_state.share, *old(self), *ticket_state) ==> r is Ok
                && final(self).address == old(self).address && final(self).reward_index
                == ticket_state.global_reward_index && final(self).pending_reward
                == spec_ticket_pending(staker_state.share, *old(self), *ticket_state),
    {
        let total = mul_decimal(staker_state.share, ticket_state.global_reward_index);
        let own = mul_decimal(staker_state.share, self.reward_index);
        let pending_reward = match checked_sub(total, own) {
            Ok(v) => v,
            Err(e) => {
                return Err(e);
            },
        };
        self.reward_index = ticket_state.global_reward_index;
        self.pending_reward = self.pending_reward + pending_reward;
        Ok(())
    }
}

/// `compute_ticket` stays within 128 bits.
pub open spec fn compute_ticket_defined(
    staking_state: StakingState,
    staker_state: StakerState,
    ticket_state: TicketState,
    ticket_staker_state: TicketStakerState,
    schedule: Seq<ScheduleEntry>,
    height: u64,
) -> bool {
    &&& distribute_defined(ticket_state, staking_state.total_share, schedule, height)
    &&& ticket_reward_defined(
        staker_state.share,
        ticket_staker_state,
        spec_distribute(ticket_state, staking_state.total_share, schedule, height),
    )
}

/// Whether `compute_ticket` stays within 128 bits.
pub fn compute_ticket_fits(
    config: &TicketConfig,
    staking_state: &StakingState,
    staker_state: &StakerState,
    ticket_state: &TicketState,
    ticket_staker_state: &TicketStakerState,
    block_height: u64,
) -> (r: bool)
    ensures
        r == compute_ticket_defined(
            *staking_state,
            *staker_state,
            *ticket_state,
            *ticket_staker_state,
            config.distribution_schedule@,
            block_height,
        ),
{
    if !index_growth_fits(
        ticket_state.global_reward_index.atomics,
        staking_state.total_share,
        &config.distribution_schedule,
        ticket_state.last_distributed,
        block_height,
    ) {
        return false;
    }
    let mut s1 = *ticket_state;
    s1.compute_distributed_reward(staking_state, config, block_height);
    reward_growth_fits(
        staker_state.share,
        s1.global_reward_index.atomics,
        ticket_staker_state.reward_index.atomics,
        ticket_staker_state.pending_reward,
    )
}

/// Brings the ticket rewards up to `block_height`: the global distribution,
/// then the staker's reward (`staker_state` and `ticket_staker_state` are the
/// staker's stored states, or the defaults).
pub fn compute_ticket(
    config: &TicketConfig,
    staking_state: &StakingState,
    staker_state: &StakerState,
    ticket_state: TicketState,
    ticket_staker_state: TicketStakerState,
    block_height: u64,
) -> (r: Result<(TicketState, TicketStakerState), StdError>)
    requires
        compute_ticket_defined(
            *staking_state,
            *staker_state,
            ticket_state,
            ticket_staker_state,
            config.distribution_schedule@,
            block_height,
        ),
    ensures
        ({
            let s1 = spec_distribute(
                ticket_state,
                staking_state.total_share,
                config.distribution_schedule@,
                block_height,
            );
            &&& !ticket_reward_ok(staker_state.share, ticket_staker_state, s1) ==> r is Err
                && is_ticket_underflow(r->Err_0, staker_state.share, ticket_staker_state, s1)
            &&& ticket_reward_ok(staker_state.share, ticket_staker_state, s1) ==> r is Ok
                && r->Ok_0.0 == s1 && r->Ok_0.1.address == ticket_staker_state.address
                && r->Ok_0.1.reward_index == s1.global_reward_index && r->Ok_0.1.pending_reward
                == spec_ticket_pending(staker_state.share, ticket_staker_state, s1)
        }),
{
    let mut ticket_state = ticket_state;
    ticket_state.compute_distributed_reward(staking_state, config, block_height);
    let mut ticket_staker_state = ticket_staker_state;
    ticket_staker_state.compute_staker_reward(staker_state, &ticket_state)?;
    Ok((ticket_state, ticket_staker_state))
}

/// Sets up the ticket rewards; the schedule must be valid.
pub fn instantiate(msg: TicketConfigInitMsg) -> (r: Result<(TicketConfig, Response), ContractError>)
    ensures
        !spec_valid_schedule(msg.distribution_schedule@) ==> r is Err && is_generic_err(
            r->Err_0,
            "invalid schedule"@,
        ),
        spec_valid_schedule(msg.distribution_schedule@) ==> r is Ok && r->Ok_0.0 == (TicketConfig {
            ticket_token: msg.ticket_token,
            distribution_schedule: msg.distribution_schedule,
        }) && r->Ok_0.1@ == action_response("instantiate"@),
{
    let response = make_response("instantiate");
    if !is_valid_schedule(&msg.distribution_schedule) {
        return Err(generic_err("invalid schedule"));
    }
    Ok(
        (
            TicketConfig {
                ticket_token: msg.ticket_token,
                distribution_schedule: msg.distribution_schedule,
            },
            response,
        ),
    )
}

/// Updates the ticket token and the schedule that are given; only the
/// contract itself may. A new schedule must be valid.
pub fn update_ticket_config(
    config: &mut TicketConfig,
    contract_address: &String,
    sender: &String,
    ticket_token: Option<String>,
    distribution_schedule: Option<Vec<ScheduleEntry>>,
) -> (r: Result<Response, ContractError>)
    ensures
        r is Err ==> *final(config) == *old(config),
        contract_address@ != sender@ ==> r == Err::<Response, ContractError>(
            ContractError::Unauthorized,
        ),
        contract_address@ == sender@ && distribution_schedule is Some && !spec_valid_schedule(
            distribution_schedule->Some_0@,
        ) ==> r is Err && is_generic_err(r->Err_0, "invalid schedule"@),
        contract_address@ == sender@ && (distribution_schedule is Some ==> spec_valid_schedule(
            distribution_schedule->Some_0@,
        )) ==> r is Ok && final(config).ticket_token == (if ticket_token is Some {
            ticket_token->Some_0
        } else {
            old(config).ticket_token
        }) && final(config).distribution_schedule == (if distribution_schedule is Some {
            distribution_schedule->Some_0
        } else {
            old(config).distribution_schedule
        }) && r->Ok_0@ == with_flag(
            with_flag(
                action_response("update_ticket_config"@),
                ticket_token is Some,
                "is_updated_ticket_token"@,
            ),
            distribution_schedule is Some,
            "is_updated_distribution_schedule"@,
        ),
{
    if *contract_address != *sender {
        return Err(ContractError::Unauthorized);
    }
    let mut response = make_response("update_ticket_config");
    if let Some(schedule) = &distribution_schedule {
        if !is_valid_schedule(schedule) {
            return Err(generic_err("invalid schedule"));
        }
    }
    if let Some(ticket_token) = ticket_token {
        config.ticket_token = ticket_token;
        response = response.add_flag("is_updated_ticket_token");
    }
    if let Some(schedule) = distribution_schedule {
        config.distribution_schedule = schedule;
        response = response.add_flag("is_updated_distribution_schedule");
    }
    Ok(response)
}

/// Sends `sender` its pending tickets, after the rewards are brought up to
/// `block_height`. The result holds the ticket state and the staker's ticket
/// state to store; the latter is `None` when it is to be removed, which it is
/// when the staker holds no shares.
pub fn ticket_claim(
    config: &TicketConfig,
    staking_state: &StakingState,
    staker_state: &StakerState,
    ticket_state: TicketState,
    ticket_staker_state: TicketStakerState,
    block_height: u64,
    sender: String,
) -> (r: Result<(TicketState, Option<TicketStakerState>, Response), ContractError>)
    requires
        compute_ticket_defined(
            *staking_state,
            *staker_state,
            ticket_state,
            ticket_staker_state,
            config.distribution_schedule@,
            block_height,
        ),
    ensures
        ({
            let s1 = spec_distribute(
                ticket_state,
                staking_state.total_share,
                config.distribution_schedule@,
                block_height,
            );
            let amount = spec_ticket_pending(staker_state.share, ticket_staker_state, s1);
            &&& !ticket_reward_ok(staker_state.share, ticket_staker_state, s1) ==> r is Err
                && r->Err_0 is Std && is_ticket_underflow(
                r->Err_0->Std_0,
                staker_state.share,
                ticket_staker_state,
                s1,
            )
            &&& ticket_reward_ok(staker_state.share, ticket_staker_state, s1) ==> {
                &&& r is Ok
                &&& r->Ok_0.0 == s1
                &&& staker_state.share == 0 ==> r->Ok_0.1 is None
                &&& staker_state.share != 0 ==> r->Ok_0.1 is Some && r->Ok_0.1->Some_0.address
                    == ticket_staker_state.address && r->Ok_0.1->Some_0.reward_index
                    == s1.global_reward_index && r->Ok_0.1->Some_0.pending_reward == 0
                &&& r->Ok_0.2@ == with_attr(
                    with_attr(
                        with_msg(
                            action_response("ticket_claim"@),
                            transfer_msg(config.ticket_token@, sender@, amount as u128),
                        ),
                        "recipient"@,
                        sender@,
                    ),
                    "amount"@,
                    spec_decimal(amount as nat),
                )
            }
        }),
{
    let mut response = make_response("ticket_claim");
    let (ticket_state, mut ticket_staker_state) = match compute_ticket(
        config,
        staking_state,
        staker_state,
        ticket_state,
        ticket_staker_state,
        block_height,
    ) {
        Ok(v) => v,
        Err(e) => {
            return Err(ContractError::Std(e));
        },
    };
    let amount = ticket_staker_state.pending_reward;
    let stored = if staker_state.share == 0 {
        None
    } else {
        ticket_staker_state.pending_reward = 0;
        Some(ticket_staker_state)
    };
    response = response.add_message(
        config.ticket_token.clone(),
        ExecuteBody::Cw20Transfer { recipient: sender.clone(), amount },
    );
    response = response.add_attribute("recipient", sender);
    response = response.add_attribute("amount", uint_to_string(amount));
    Ok((ticket_state, stored, response))
}

/// The ticket configuration.
pub fn get_ticket_config(config: &TicketConfig) -> (r: TicketConfig)
    ensures
        r.ticket_token == config.ticket_token,
        r.distribution_schedule@ == config.distribution_schedule@,
{
    TicketConfig {
        ticket_token: config.ticket_token.clone(),
        distribution_schedule: copy_schedule(&config.distribution_schedule),
    }
}

/// The ticket state (the stored one, or the default when none is stored).
pub fn get_ticket_state(ticket_state: Option<TicketState>) -> (r: TicketState)
    ensures
        ticket_state is Some ==> r == ticket_state->Some_0,
        ticket_state is None ==> r == TicketState::default_spec(),
{
    match ticket_state {
        Some(s) => s,
        None => TicketState::default(),
    }
}

impl TicketState {
    /// No tickets distributed yet.
    pub open spec fn default_spec() -> TicketState {
        TicketState { last_distributed: 0, global_reward_index: Decimal { atomics: 0 } }
    }
}

/// A staker's ticket rewards as of `block_height`, computed without being
/// stored.
pub fn get_ticket_staker_state(
    config: &TicketConfig,
    staking_state: &StakingState,
    staker_state: &StakerState,
    ticket_state: TicketState,
    ticket_staker_state: TicketStakerState,
    block_height: u64,
    address: String,
) -> (r: Result<TicketStateResponse, StdError>)
    requires
        compute_ticket_defined(
            *staking_state,
            *staker_state,
            ticket_state,
            ticket_staker_state,
            config.distribution_schedule@,
            block_height,
        ),
    ensures
        ({
            let s1 = spec_distribute(
                ticket_state,
                staking_state.total_share,
                config.distribution_schedule@,
                block_height,
            );
            &&& !ticket_reward_ok(staker_state.share, ticket_staker_state, s1) ==> r is Err
                && is_ticket_underflow(r->Err_0, staker_state.share, ticket_staker_state, s1)
            &&& ticket_reward_ok(staker_state.share, ticket_staker_state, s1) ==> r is Ok
                && r->Ok_0.address == address && r->Ok_0.reward_index == s1.global_reward_index
                && r->Ok_0.pending_reward == spec_ticket_pending(
                staker_state.share,
                ticket_staker_state,
                s1,
            )
        }),
{
    let (_ticket_state, ticket_staker_state) = compute_ticket(
        config,
        staking_state,
        staker_state,
        ticket_state,
        ticket_staker_state,
        block_height,
    )?;
    Ok(
        TicketStateResponse {
            address,
            reward_index: ticket_staker_state.reward_index,
            pending_reward: ticket_staker_state.pending_reward,
        },
    )
}

/// Distributing the tickets twice at the same height is distributing them
/// once, and a staker whose tickets were just brought up to the index has
/// none more to collect at it.
pub proof fn law_ticket_reward_idempotent(
    s: TicketState,
    total_share: u128,
    schedule: Seq<ScheduleEntry>,
    height: u64,
    share: u128,
    t: TicketStakerState,
)
    ensures
        ({
            let s1 = spec_distribute(s, total_share, schedule, height);
            &&& spec_distribute(s1, total_share, schedule, height) == s1
            &&& t.reward_index == s1.global_reward_index ==> spec_ticket_pending(share, t, s1)
                == t.pending_reward
        }),
{
    law_no_reward_at_same_height(schedule, height);
    if total_share != 0 {
        assert(spec_ratio_atomics(0, total_share as int) == 0);
    }
}

/// A ticket distribution raises the reward index by no more than the tickets
/// the schedule paid, spread over the shares; with
/// `law_rewards_within_distribution` the stakers never earn more tickets than
/// were paid out.
pub proof fn law_ticket_index_growth_bounded(
    s: TicketState,
    total_share: u128,
    schedule: Seq<ScheduleEntry>,
    height: u64,
)
    requires
        total_share != 0,
        distribute_defined(s, total_share, schedule, height),
    ensures
        (spec_distribute(s, total_share, schedule, height).global_reward_index.atomics
            - s.global_reward_index.atomics) * total_share <= schedule_reward(
            schedule,
            s.last_distributed,
            height,
        ) * 1_000_000_000_000_000_000,
{
    lemma_schedule_reward_nonneg(schedule, s.last_distributed, height);
    let paid = schedule_reward(schedule, s.last_distributed, height);
    let k: int = 1_000_000_000_000_000_000;
    assert(paid * k >= 0) by (nonlinear_arith)
        requires
            paid >= 0,
            k > 0,
    ;
    lemma_div_mul_le(paid * k, total_share as int);
}

} // verus!
