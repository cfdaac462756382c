//! The poll operations of the governance contract.
//!
//! Each operation takes the stored values that the contract call reads and
//! returns the values to store; on an error nothing is stored.
use vstd::prelude::*;
use vstd::utf8::encode_utf8;
use crate::errors::{
    ContractError, StdError, checked_sub, generic_err, is_generic_err, is_std_generic_err,
    is_sub_overflow, std_generic_err,
};
use crate::governance::common::ContractConfig;
use crate::governance::common::load_available_balance;
use crate::governance::poll::{
    Poll, PollConfig, PollExecutionContext, PollExecutionProgress, PollResult, PollState, PollStatus, VoteInfo,
    VoteOption, executions_view, get_poll_id, needs_available, result_defined,
    sort_executions, sorted_by_order, spec_option_str, spec_poll_result, spec_quorum,
    spec_quorum_base, spec_result_str, spec_state_after_create, spec_state_after_end,
    spec_status_str, spec_tallied, with_order,
};
use crate::governance::staking::{StakerState, StakingState, spec_balance};
use crate::math::{DECIMAL_FRACTIONAL, Decimal, checked_multiply_ratio};
use crate::messages::{
    ExecuteBody, ExecuteBodyView, ExecutionMsg, ExecutionMsgView, ReplyOn, Response,
    ResponseView, SubMsg, SubMsgView, action_response, bool_to_string, make_response,
    plain_msg, spec_bool_str, spec_decimal, transfer_msg, u64_to_string, uint_to_string,
    with_attr, with_flag, with_msg,
};

verus! {

/// The reply id of the sub-message that runs a poll's executions.
pub const REPLY_EXECUTION: u64 = 1;

const MIN_TITLE_LENGTH: usize = 4;

const MAX_TITLE_LENGTH: usize = 64;

const MIN_DESC_LENGTH: usize = 4;

const MAX_DESC_LENGTH: usize = 1024;

const MIN_LINK_LENGTH: usize = 12;

const MAX_LINK_LENGTH: usize = 128;

/// The instantiation message of the poll configuration.
#[derive(Clone, Copy, Debug, PartialEq, Eq, Structural)]
pub struct PollConfigInitMsg {
    pub quorum: Decimal,
    pub threshold: Decimal,
    pub voting_period: u64,
    pub execution_delay_period: u64,
    pub proposal_deposit: u128,
    pub snapshot_period: u64,
}

/// What a cw20 execute message is, as far as polls are concerned.
#[derive(Clone, Copy, Debug, PartialEq, Eq, Structural)]
pub enum Cw20MsgKind {
    Transfer,
    Send,
    IncreaseAllowance,
    /// Any other cw20 message, or bytes that are no cw20 message.
    Other,
}

/// The kind of cw20 execute message that the JSON bytes `msg` decode to.
pub uninterp spec fn cw20_msg_kind(msg: Seq<u8>) -> Cw20MsgKind;

/// Decodes `msg` as a `cw20::Cw20ExecuteMsg` with `cosmwasm_std::from_json`
/// and tells which of the variants that polls may not carry it is; bytes that
/// do not decode, and the other variants, are `Other`. The result is named
/// `cw20_msg_kind` of the bytes.
#[verifier::external_body]
fn parse_cw20_msg_kind(msg: &Vec<u8>) -> (r: Cw20MsgKind)
    ensures
        r == cw20_msg_kind(msg@),
{
    match cosmwasm_std::from_json::<cw20::Cw20ExecuteMsg>(msg.as_slice()) {
        Ok(cw20::Cw20ExecuteMsg::Transfer { .. }) => Cw20MsgKind::Transfer,
        Ok(cw20::Cw20ExecuteMsg::Send { .. }) => Cw20MsgKind::Send,
        Ok(cw20::Cw20ExecuteMsg::IncreaseAllowance { .. }) => Cw20MsgKind::IncreaseAllowance,
        _ => Cw20MsgKind::Other,
    }
}

/// The length in bytes of the UTF-8 encoding of `s`, as `str::len` gives it.
pub open spec fn byte_len(s: Seq<char>) -> int {
    (encode_utf8(s).len() as usize) as int
}

/// The error message for a text whose length must lie in `min..=max`.
pub open spec fn length_error(
    len: int,
    min: int,
    max: int,
    too_short: Seq<char>,
    too_long: Seq<char>,
) -> Option<Seq<char>> {
    if len < min {
        Some(too_short)
    } else if len > max {
        Some(too_long)
    } else {
        None
    }
}

/// The error message for a poll title, if it is invalid.
pub open spec fn title_error(title: Seq<char>) -> Option<Seq<char>> {
    length_error(byte_len(title), 4, 64, "Title too short"@, "Title too long"@)
}

/// The error message for a poll description, if it is invalid.
pub open spec fn description_error(description: Seq<char>) -> Option<Seq<char>> {
    length_error(byte_len(description), 4, 1024, "Description too short"@, "Description too long"@)
}

/// The error message for a poll link, if it is invalid.
pub open spec fn link_error(link: Option<String>) -> Option<Seq<char>> {
    match link {
        Some(l) => length_error(byte_len(l@), 12, 128, "Link too short"@, "Link too long"@),
        None => None,
    }
}

/// The error message for a message that polls may not carry.
pub open spec fn kind_error(k: Cw20MsgKind) -> Option<Seq<char>> {
    match k {
        Cw20MsgKind::Transfer => Some("Can't use Transfer message"@),
        Cw20MsgKind::Send => Some("Can't use Send message"@),
        Cw20MsgKind::IncreaseAllowance => Some("Can't use IncreaseAllowance message"@),
        Cw20MsgKind::Other => None,
    }
}

/// The error message for the first execution that polls may not carry.
pub open spec fn executions_error(executions: Seq<ExecutionMsg>) -> Option<Seq<char>>
    decreases executions.len(),
{
    if executions.len() == 0 {
        None
    } else {
        match kind_error(cw20_msg_kind(executions[0].msg@)) {
            Some(m) => Some(m),
            None => executions_error(executions.drop_first()),
        }
    }
}

/// Every execution of a poll is checked: the executions are refused exactly
/// when one of them, at any position, decodes as a cw20 `Transfer`, `Send` or
/// `IncreaseAllowance`, and the message is that of the first such execution.
/// With a valid text and link, `create_poll` then fails with that message.
pub proof fn law_every_execution_checked(
    executions: Seq<ExecutionMsg>,
    title: Seq<char>,
    description: Seq<char>,
    link: Option<String>,
)
    ensures
        executions_error(executions) is None <==> forall|i: int|
            0 <= i < executions.len() ==> #[trigger] cw20_msg_kind(executions[i].msg@)
                == Cw20MsgKind::Other,
        forall|i: int|
            0 <= i < executions.len() && #[trigger] cw20_msg_kind(executions[i].msg@)
                != Cw20MsgKind::Other && (forall|j: int|
                0 <= j < i ==> cw20_msg_kind(executions[j].msg@) == Cw20MsgKind::Other)
                ==> executions_error(executions) == kind_error(cw20_msg_kind(executions[i].msg@)),
        title_error(title) is None && description_error(description) is None && link_error(link)
            is None ==> poll_content_error(title, description, link, executions)
            == executions_error(executions),
    decreases executions.len(),
{
    if executions.len() > 0 {
        let rest = executions.drop_first();
        law_every_execution_checked(rest, title, description, link);
        assert forall|i: int| 0 < i < executions.len() implies executions[i] == rest[i - 1] by {}
        if forall|i: int|
            0 <= i < executions.len() ==> #[trigger] cw20_msg_kind(executions[i].msg@)
                == Cw20MsgKind::Other {
            assert(cw20_msg_kind(executions[0].msg@) == Cw20MsgKind::Other);
            assert forall|i: int| 0 <= i < rest.len() implies #[trigger] cw20_msg_kind(
                rest[i].msg@,
            ) == Cw20MsgKind::Other by {
                assert(rest[i] == executions[i + 1]);
            }
        }
        if executions_error(executions) is None {
            assert forall|i: int| 0 <= i < executions.len() implies #[trigger] cw20_msg_kind(
                executions[i].msg@,
            ) == Cw20MsgKind::Other by {
                if i > 0 {
                    assert(executions[i] == rest[i - 1]);
                    assert(cw20_msg_kind(rest[i - 1].msg@) == Cw20MsgKind::Other);
                }
            }
        }
        assert forall|i: int|
            0 <= i < executions.len() && #[trigger] cw20_msg_kind(executions[i].msg@)
                != Cw20MsgKind::Other && (forall|j: int|
                0 <= j < i ==> cw20_msg_kind(executions[j].msg@) == Cw20MsgKind::Other)
            implies executions_error(executions) == kind_error(
            cw20_msg_kind(executions[i].msg@),
        ) by {
            if i > 0 {
                assert(cw20_msg_kind(executions[0].msg@) == Cw20MsgKind::Other);
                assert(executions[i] == rest[i - 1]);
                assert forall|j: int| 0 <= j < i - 1 implies cw20_msg_kind(rest[j].msg@)
                    == Cw20MsgKind::Other by {
                    assert(rest[j] == executions[j + 1]);
                }
                assert(cw20_msg_kind(rest[i - 1].msg@) != Cw20MsgKind::Other);
            }
        }
    }
}

/// Fails with a generic error when `quorum` exceeds one.
pub(crate) fn validate_quorum(quorum: Decimal) -> (r: Result<(), StdError>)
    ensures
        quorum.atomics > DECIMAL_FRACTIONAL ==> r is Err && is_std_generic_err(
            r->Err_0,
            "quorum must be 0 to 1"@,
        ),
        quorum.atomics <= DECIMAL_FRACTIONAL ==> r is Ok,
{
    if quorum.atomics > Decimal::one().atomics {
        Err(std_generic_err("quorum must be 0 to 1"))
    } else {
        Ok(())
    }
}

/// Fails with a generic error when `threshold` exceeds one.
pub(crate) fn validate_threshold(threshold: Decimal) -> (r: Result<(), StdError>)
    ensures
        threshold.atomics > DECIMAL_FRACTIONAL ==> r is Err && is_std_generic_err(
            r->Err_0,
            "threshold must be 0 to 1"@,
        ),
        threshold.atomics <= DECIMAL_FRACTIONAL ==> r is Ok,
{
    if threshold.atomics > Decimal::one().atomics {
        Err(std_generic_err("threshold must be 0 to 1"))
    } else {
        Ok(())
    }
}

/// Fails when the title is shorter than 4 or longer than 64 bytes.
pub(crate) fn validate_title(title: &String) -> (r: Result<(), StdError>)
    ensures
        title_error(title@) is None ==> r is Ok,
        title_error(title@) is Some ==> r is Err && is_std_generic_err(
            r->Err_0,
            title_error(title@)->Some_0,
        ),
{
    let len = title.as_str().len();
    if len < MIN_TITLE_LENGTH {
        Err(std_generic_err("Title too short"))
    } else if len > MAX_TITLE_LENGTH {
        Err(std_generic_err("Title too long"))
    } else {
        Ok(())
    }
}

/// Fails when the description is shorter than 4 or longer than 1024 bytes.
pub(crate) fn validate_description(description: &String) -> (r: Result<(), StdError>)
    ensures
        description_error(description@) is None ==> r is Ok,
        description_error(description@) is Some ==> r is Err && is_std_generic_err(
            r->Err_0,
            description_error(description@)->Some_0,
        ),
{
    let len = description.as_str().len();
    if len < MIN_DESC_LENGTH {
        Err(std_generic_err("Description too short"))
    } else if len > MAX_DESC_LENGTH {
        Err(std_generic_err("Description too long"))
    } else {
        Ok(())
    }
}

/// Fails when a link is given that is shorter than 12 or longer than 128 bytes.
pub(crate) fn validate_link(link: &Option<String>) -> (r: Result<(), StdError>)
    ensures
        link_error(*link) is None ==> r is Ok,
        link_error(*link) is Some ==> r is Err && is_std_generic_err(
            r->Err_0,
            link_error(*link)->Some_0,
        ),
{
    if let Some(link) = link {
        let len = link.as_str().len();
        if len < MIN_LINK_LENGTH {
            Err(std_generic_err("Link too short"))
        } else if len > MAX_LINK_LENGTH {
            Err(std_generic_err("Link too long"))
        } else {
            Ok(())
        }
    } else {
        Ok(())
    }
}

/// Fails at the first execution that is a cw20 `Transfer`, `Send` or
/// `IncreaseAllowance`: a poll may not move the contract's tokens.
fn validate_executions(executions: &Vec<ExecutionMsg>) -> (r: Result<(), StdError>)
    ensures
        executions_error(executions@) is None ==> r is Ok,
        executions_error(executions@) is Some ==> r is Err && is_std_generic_err(
            r->Err_0,
            executions_error(executions@)->Some_0,
        ),
{
    let n = executions.len();
    let mut i: usize = 0;
    proof {
        assert(executions@.skip(0) =~= executions@);
    }
    while i < n
        invariant
            n == executions@.len(),
            i <= n,
            executions_error(executions@) == executions_error(executions@.skip(i as int)),
        decreases n - i,
    {
        proof {
            assert(executions@.skip(i as int)[0] == executions@[i as int]);
            assert(executions@.skip(i as int).drop_first() =~= executions@.skip(i + 1));
        }
        match parse_cw20_msg_kind(&executions[i].msg) {
            Cw20MsgKind::Transfer => {
                return Err(std_generic_err("Can't use Transfer message"));
            },
            Cw20MsgKind::Send => {
                return Err(std_generic_err("Can't use Send message"));
            },
            Cw20MsgKind::IncreaseAllowance => {
                return Err(std_generic_err("Can't use IncreaseAllowance message"));
            },
            Cw20MsgKind::Other => {},
        }
        i = i + 1;
    }
    proof {
        assert(executions@.skip(n as int) =~= Seq::<ExecutionMsg>::empty());
    }
    Ok(())
}

/// Sets up the poll rules and counters. Quorum and threshold may not exceed one.
pub fn instantiate(msg: PollConfigInitMsg) -> (r: Result<
    (PollConfig, PollState, Response),
    ContractError,
>)
    ensures
        msg.quorum.atomics > DECIMAL_FRACTIONAL ==> r is Err && is_generic_err(
            r->Err_0,
            "quorum must be 0 to 1"@,
        ),
        msg.quorum.atomics <= DECIMAL_FRACTIONAL && msg.threshold.atomics > DECIMAL_FRACTIONAL
            ==> r is Err && is_generic_err(r->Err_0, "threshold must be 0 to 1"@),
        msg.quorum.atomics <= DECIMAL_FRACTIONAL && msg.threshold.atomics <= DECIMAL_FRACTIONAL
            ==> r is Ok && r->Ok_0.0 == (PollConfig {
            quorum: msg.quorum,
            threshold: msg.threshold,
            voting_period: msg.voting_period,
            execution_delay_period: msg.execution_delay_period,
            proposal_deposit: msg.proposal_deposit,
            snapshot_period: msg.snapshot_period,
        }) && r->Ok_0.1 == (PollState { poll_count: 0, total_deposit: 0 }) && r->Ok_0.2@
            == action_response("instantiate"@),
{
    if let Err(e) = validate_quorum(msg.quorum) {
        return Err(ContractError::Std(e));
    }
    if let Err(e) = validate_threshold(msg.threshold) {
        return Err(ContractError::Std(e));
    }
    let response = make_response("instantiate");
    let poll_config = PollConfig {
        quorum: msg.quorum,
        threshold: msg.threshold,
        voting_period: msg.voting_period,
        execution_delay_period: msg.execution_delay_period,
        proposal_deposit: msg.proposal_deposit,
        snapshot_period: msg.snapshot_period,
    };
    let poll_state = PollState { poll_count: 0, total_deposit: 0 };
    Ok((poll_config, poll_state, response))
}

/// The response of `update_poll_config` for the fields given.
pub open spec fn update_poll_config_response(
    quorum: bool,
    threshold: bool,
    voting_period: bool,
    execution_delay_period: bool,
    proposal_deposit: bool,
    snapshot_period: bool,
) -> ResponseView {
    with_flag(
        with_flag(
            with_flag(
                with_flag(
                    with_flag(
                        with_flag(
                            action_response("update_poll_config"@),
                            quorum,
                            "is_updated_quorum"@,
                        ),
                        threshold,
                        "is_updated_threshold"@,
                    ),
                    voting_period,
                    "is_updated_voting_period"@,
                ),
                execution_delay_period,
                "is_updated_execution_delay_period"@,
            ),
            proposal_deposit,
            "is_updated_proposal_deposit"@,
        ),
        snapshot_period,
        "is_updated_period"@,
    )
}

/// The value of an optional update.
pub open spec fn updated<T>(new: Option<T>, old: T) -> T {
    if new is Some {
        new->Some_0
    } else {
        old
    }
}

/// Updates the poll rules that are given; only the contract itself (through
/// a poll) may. A new quorum or threshold may not exceed one.
pub fn update_poll_config(
    poll_config: &mut PollConfig,
    contract_address: &String,
    sender: &String,
    quorum: Option<Decimal>,
    threshold: Option<Decimal>,
    voting_period: Option<u64>,
    execution_delay_period: Option<u64>,
    proposal_deposit: Option<u128>,
    snapshot_period: Option<u64>,
) -> (r: Result<Response, ContractError>)
    ensures
        r is Err ==> *final(poll_config) == *old(poll_config),
        contract_address@ != sender@ ==> r == Err::<Response, ContractError>(
            ContractError::Unauthorized,
        ),
        contract_address@ == sender@ && quorum is Some && quorum->Some_0.atomics
            > DECIMAL_FRACTIONAL ==> r is Err && is_generic_err(r->Err_0, "quorum must be 0 to 1"@),
        contract_address@ == sender@ && !(quorum is Some && quorum->Some_0.atomics
            > DECIMAL_FRACTIONAL) && threshold is Some && threshold->Some_0.atomics
            > DECIMAL_FRACTIONAL ==> r is Err && is_generic_err(
            r->Err_0,
            "threshold must be 0 to 1"@,
        ),
        contract_address@ == sender@ && !(quorum is Some && quorum->Some_0.atomics
            > DECIMAL_FRACTIONAL) && !(threshold is Some && threshold->Some_0.atomics
            > DECIMAL_FRACTIONAL) ==> r is Ok && *final(poll_config) == (PollConfig {
            quorum: updated(quorum, old(poll_config).quorum),
            threshold: updated(threshold, old(poll_config).threshold),
            voting_period: updated(voting_period, old(poll_config).voting_period),
            execution_delay_period: updated(
                execution_delay_period,
                old(poll_config).execution_delay_period,
            ),
            proposal_deposit: updated(proposal_deposit, old(poll_config).proposal_deposit),
            snapshot_period: updated(snapshot_period, old(poll_config).snapshot_period),
        }) && r->Ok_0@ == update_poll_config_response(
            quorum is Some,
            threshold is Some,
            voting_period is Some,
            execution_delay_period is Some,
            proposal_deposit is Some,
            snapshot_period is Some,
        ),
{
    if *contract_address != *sender {
        return Err(ContractError::Unauthorized);
    }
    let mut response = make_response("update_poll_config");
    let mut config = *poll_config;
    if let Some(quorum) = quorum {
        if let Err(e) = validate_quorum(quorum) {
            return Err(ContractError::Std(e));
        }
        config.quorum = quorum;
        response = response.add_flag("is_updated_quorum");
    }
    if let Some(threshold) = threshold {
        if let Err(e) = validate_threshold(threshold) {
            return Err(ContractError::Std(e));
        }
        config.threshold = threshold;
        response = response.add_flag("is_updated_threshold");
    }
    if let Some(voting_period) = voting_period {
        config.voting_period = voting_period;
        response = response.add_flag("is_updated_voting_period");
    }
    if let Some(execution_delay_period) = execution_delay_period {
        config.execution_delay_period = execution_delay_period;
        response = response.add_flag("is_updated_execution_delay_period");
    }
    if let Some(proposal_deposit) = proposal_deposit {
        config.proposal_deposit = proposal_deposit;
        response = response.add_flag("is_updated_proposal_deposit");
    }
    if let Some(period) = snapshot_period {
        config.snapshot_period = period;
        response = response.add_flag("is_updated_period");
    }
    *poll_config = config;
    Ok(response)
}

/// The error message for the text and the executions of a new poll, in the
/// order they are checked.
pub open spec fn poll_content_error(
    title: Seq<char>,
    description: Seq<char>,
    link: Option<String>,
    executions: Seq<ExecutionMsg>,
) -> Option<Seq<char>> {
    if title_error(title) is Some {
        title_error(title)
    } else if description_error(description) is Some {
        description_error(description)
    } else if link_error(link) is Some {
        link_error(link)
    } else {
        executions_error(executions)
    }
}

/// The message of a deposit that is too small.
pub open spec fn deposit_error(proposal_deposit: u128) -> Seq<char> {
    "Must deposit more than "@ + spec_decimal(proposal_deposit as nat) + " token"@
}

/// Whether `create_poll` stays within the bounds of its counters: the poll
/// count, the total deposit and the end height, once the poll is accepted.
pub fn create_poll_fits(
    contract_config: &ContractConfig,
    poll_config: &PollConfig,
    poll_state: &PollState,
    sender: &String,
    block_height: u64,
    deposit_amount: u128,
    title: &String,
    description: &String,
    link: &Option<String>,
    executions: &Vec<ExecutionMsg>,
) -> (r: bool)
    ensures
        r == (poll_content_error(title@, description@, *link, executions@) is None
            && contract_config.governance_token@ == sender@ && deposit_amount
            >= poll_config.proposal_deposit ==> {
            &&& poll_state.poll_count < u64::MAX
            &&& poll_state.total_deposit + deposit_amount <= u128::MAX
            &&& block_height + poll_config.voting_period <= u64::MAX
        }),
{
    if validate_title(title).is_err() || validate_description(description).is_err()
        || validate_link(link).is_err() || validate_executions(executions).is_err() {
        return true;
    }
    if !contract_config.is_governance_token(sender) || deposit_amount
        < poll_config.proposal_deposit {
        return true;
    }
    poll_state.poll_count < u64::MAX && poll_state.total_deposit <= u128::MAX - deposit_amount
        && block_height <= u64::MAX - poll_config.voting_period
}

/// Creates a poll proposed by `proposer` with a deposit of `deposit_amount`
/// governance tokens. Only the governance token may call (`sender`): the
/// deposit arrives with the call. The text, the link and the executions are
/// checked first, then the caller, then the deposit. The poll takes the next
/// id, is in progress, and takes votes up to `voting_period` blocks after
/// `block_height`.
pub fn create_poll(
    contract_config: &ContractConfig,
    poll_config: &PollConfig,
    poll_state: &mut PollState,
    sender: &String,
    block_height: u64,
    proposer: String,
    deposit_amount: u128,
    title: String,
    description: String,
    link: Option<String>,
    executions: Vec<ExecutionMsg>,
) -> (r: Result<(Poll, Response), ContractError>)
    requires
        poll_content_error(title@, description@, link, executions@) is None
            && contract_config.governance_token@ == sender@ && deposit_amount
            >= poll_config.proposal_deposit ==> {
            &&& old(poll_state).poll_count < u64::MAX
            &&& old(poll_state).total_deposit + deposit_amount <= u128::MAX
            &&& block_height + poll_config.voting_period <= u64::MAX
        },
    ensures
        r is Err ==> *final(poll_state) == *old(poll_state),
        poll_content_error(title@, description@, link, executions@) is Some ==> r is Err
            && is_generic_err(
            r->Err_0,
            poll_content_error(title@, description@, link, executions@)->Some_0,
        ),
        poll_content_error(title@, description@, link, executions@) is None
            && contract_config.governance_token@ != sender@ ==> r == Err::<
            (Poll, Response),
            ContractError,
        >(ContractError::Unauthorized),
        poll_content_error(title@, description@, link, executions@) is None
            && contract_config.governance_token@ == sender@ && deposit_amount
            < poll_config.proposal_deposit ==> r is Err && is_generic_err(
            r->Err_0,
            deposit_error(poll_config.proposal_deposit),
        ),
        poll_content_error(title@, description@, link, executions@) is None
            && contract_config.governance_token@ == sender@ && deposit_amount
            >= poll_config.proposal_deposit ==> {
            &&& r is Ok
            &&& *final(poll_state) == spec_state_after_create(*old(poll_state), deposit_amount)
            &&& r->Ok_0.0 == (Poll {
                id: final(poll_state).poll_count,
                creator: proposer,
                status: PollStatus::InProgress,
                yes_votes: 0,
                no_votes: 0,
                abstain_votes: 0,
                end_height: (block_height + poll_config.voting_period) as u64,
                title,
                description,
                link,
                executions,
                deposit_amount,
                total_balance_at_end_poll: None,
                snapped_staked_amount: None,
            })
            &&& r->Ok_0.1@ == with_attr(
                with_attr(
                    with_attr(action_response("create_poll"@), "creator"@, proposer@),
                    "poll_id"@,
                    spec_decimal((old(poll_state).poll_count + 1) as nat),
                ),
                "end_height"@,
                spec_decimal((block_height + poll_config.voting_period) as nat),
            )
        },
{
    if let Err(e) = validate_title(&title) {
        return Err(ContractError::Std(e));
    }
    if let Err(e) = validate_description(&description) {
        return Err(ContractError::Std(e));
    }
    if let Err(e) = validate_link(&link) {
        return Err(ContractError::Std(e));
    }
    if let Err(e) = validate_executions(&executions) {
        return Err(ContractError::Std(e));
    }
    if !contract_config.is_governance_token(sender) {
        return Err(ContractError::Unauthorized);
    }
    if deposit_amount < poll_config.proposal_deposit {
        let msg = String::from_str("Must deposit more than ").concat(
            uint_to_string(poll_config.proposal_deposit).as_str(),
        ).concat(" token");
        return Err(ContractError::Std(StdError::GenericErr { msg }));
    }
    let mut response = make_response("create_poll");
    let id = get_poll_id(poll_state, deposit_amount);
    let end_height = block_height + poll_config.voting_period;
    response = response.add_attribute("creator", proposer.clone());
    response = response.add_attribute("poll_id", u64_to_string(id));
    response = response.add_attribute("end_height", u64_to_string(end_height));
    let poll = Poll {
        id,
        creator: proposer,
        status: PollStatus::InProgress,
        yes_votes: 0,
        no_votes: 0,
        abstain_votes: 0,
        end_height,
        title,
        description,
        link,
        executions,
        deposit_amount,
        total_balance_at_end_poll: None,
        snapped_staked_amount: None,
    };
    Ok((poll, response))
}

/// The votes of `p` after a vote of `amount` with `option`.
pub open spec fn with_vote(p: Poll, option: VoteOption, amount: u128) -> Poll {
    Poll {
        yes_votes: if option == VoteOption::Yes {
            (p.yes_votes + amount) as u128
        } else {
            p.yes_votes
        },
        no_votes: if option == VoteOption::No {
            (p.no_votes + amount) as u128
        } else {
            p.no_votes
        },
        abstain_votes: if option == VoteOption::Abstain {
            (p.abstain_votes + amount) as u128
        } else {
            p.abstain_votes
        },
        ..p
    }
}

/// The count that a vote with `option` adds to.
pub open spec fn vote_count(p: Poll, option: VoteOption) -> u128 {
    match option {
        VoteOption::Yes => p.yes_votes,
        VoteOption::No => p.no_votes,
        VoteOption::Abstain => p.abstain_votes,
    }
}

/// `p` after a vote at `block_height` with `available` tokens available:
/// the vote is counted, and the available amount is snapshot when the vote
/// falls within the snapshot period and there is no snapshot yet.
pub open spec fn spec_voted_poll(
    p: Poll,
    config: PollConfig,
    block_height: u64,
    available: u128,
    option: VoteOption,
    amount: u128,
) -> Poll {
    let v = with_vote(p, option, amount);
    if p.end_height - block_height <= config.snapshot_period && p.snapped_staked_amount is None {
        Poll { snapped_staked_amount: Some(available), ..v }
    } else {
        v
    }
}

/// `cast_vote` stays within 128 bits where it computes: the staker's balance
/// once the poll is found in progress and not yet voted on by the sender,
/// and the vote count once that balance covers the amount.
pub open spec fn cast_vote_defined(
    poll_state: PollState,
    poll: Option<Poll>,
    already_voted: bool,
    staking_state: StakingState,
    staker_state: StakerState,
    contract_balance: u128,
    block_height: u64,
    poll_id: u64,
    option: VoteOption,
    amount: u128,
) -> bool {
    let available = contract_balance - poll_state.total_deposit;
    let checked = !(poll_id == 0 || poll_state.poll_count < poll_id) && poll is Some
        && poll->Some_0.in_progress_spec(block_height) && !already_voted && available >= 0;
    &&& checked ==> spec_balance(staker_state.share, staking_state.total_share, available as u128)
        <= u128::MAX
    &&& checked && spec_balance(staker_state.share, staking_state.total_share, available as u128)
        >= amount ==> vote_count(poll->Some_0, option) + amount <= u128::MAX
}

/// Whether `cast_vote` stays within 128 bits.
pub fn cast_vote_fits(
    poll_state: &PollState,
    poll: &Option<Poll>,
    already_voted: bool,
    staking_state: &StakingState,
    staker_state: &StakerState,
    contract_balance: u128,
    block_height: u64,
    poll_id: u64,
    option: VoteOption,
    amount: u128,
) -> (r: bool)
    ensures
        r == cast_vote_defined(
            *poll_state,
            *poll,
            already_voted,
            *staking_state,
            *staker_state,
            contract_balance,
            block_height,
            poll_id,
            option,
            amount,
        ),
{
    if poll_id == 0 || poll_state.poll_count < poll_id || already_voted || contract_balance
        < poll_state.total_deposit {
        return true;
    }
    let p = match poll {
        Some(p) => p,
        None => {
            return true;
        },
    };
    if !p.in_progress(block_height) {
        return true;
    }
    let available = contract_balance - poll_state.total_deposit;
    let balance = if staking_state.total_share == 0 {
        0
    } else {
        match checked_multiply_ratio(staker_state.share, available, staking_state.total_share) {
            Some(v) => v,
            None => {
                return false;
            },
        }
    };
    if balance < amount {
        return true;
    }
    let count = match option {
        VoteOption::Yes => p.yes_votes,
        VoteOption::No => p.no_votes,
        VoteOption::Abstain => p.abstain_votes,
    };
    count <= u128::MAX - amount
}

/// Casts the vote of `sender` on the poll `poll_id` (stored as `poll`, when it
/// is) for `amount` tokens. The poll must exist and be in progress at
/// `block_height`, the sender may vote only once (`already_voted` tells
/// whether a vote is stored), and its staked tokens must cover the amount.
/// Within the snapshot period the available amount is snapshot with the vote.
/// The result holds the poll, the staker's state and the vote to store.
pub fn cast_vote(
    poll_state: &PollState,
    poll_config: &PollConfig,
    staking_state: &StakingState,
    poll: Option<Poll>,
    already_voted: bool,
    staker_state: StakerState,
    contract_balance: u128,
    block_height: u64,
    sender: String,
    poll_id: u64,
    option: VoteOption,
    amount: u128,
) -> (r: Result<(Poll, StakerState, VoteInfo, Response), ContractError>)
    requires
        cast_vote_defined(
            *poll_state,
            poll,
            already_voted,
            *staking_state,
            staker_state,
            contract_balance,
            block_height,
            poll_id,
            option,
            amount,
        ),
    ensures
        poll_id == 0 || poll_state.poll_count < poll_id ==> r is Err && is_generic_err(
            r->Err_0,
            "Poll does not exist"@,
        ),
        !(poll_id == 0 || poll_state.poll_count < poll_id) ==> {
            &&& poll is None ==> r is Err && r->Err_0 is Std && r->Err_0->Std_0 is NotFound
            &&& poll is Some ==> ({
                let p = poll->Some_0;
                let available = contract_balance - poll_state.total_deposit;
                &&& !p.in_progress_spec(block_height) ==> r is Err && is_generic_err(
                    r->Err_0,
                    "Poll is not in progress"@,
                )
                &&& p.in_progress_spec(block_height) && already_voted ==> r is Err
                    && is_generic_err(r->Err_0, "User has already voted."@)
                &&& p.in_progress_spec(block_height) && !already_voted && available < 0 ==> r is Err
                    && r->Err_0 is Std && is_sub_overflow(
                    r->Err_0->Std_0,
                    contract_balance,
                    poll_state.total_deposit,
                )
                &&& p.in_progress_spec(block_height) && !already_voted && available >= 0
                    && spec_balance(staker_state.share, staking_state.total_share, available as u128)
                    < amount ==> r is Err && is_generic_err(
                    r->Err_0,
                    "User does not have enough staked tokens."@,
                )
                &&& p.in_progress_spec(block_height) && !already_voted && available >= 0
                    && spec_balance(staker_state.share, staking_state.total_share, available as u128)
                    >= amount ==> {
                    let vote = VoteInfo { voter: sender, option, amount };
                    &&& r is Ok
                    &&& r->Ok_0.0 == spec_voted_poll(
                        p,
                        *poll_config,
                        block_height,
                        available as u128,
                        option,
                        amount,
                    )
                    &&& r->Ok_0.1.address == staker_state.address
                    &&& r->Ok_0.1.share == staker_state.share
                    &&& r->Ok_0.1.votes@ == staker_state.votes@.push((p.id, vote))
                    &&& r->Ok_0.2 == vote
                    &&& r->Ok_0.3@ == with_attr(
                        with_attr(
                            with_attr(
                                with_attr(
                                    action_response("cast_vote"@),
                                    "poll_id"@,
                                    spec_decimal(poll_id as nat),
                                ),
                                "amount"@,
                                spec_decimal(amount as nat),
                            ),
                            "voter"@,
                            sender@,
                        ),
                        "voter_option"@,
                        spec_option_str(option),
                    )
                }
            })
        },
{
    if poll_id == 0 || poll_state.poll_count < poll_id {
        return Err(generic_err("Poll does not exist"));
    }
    let mut poll = match poll {
        Some(p) => p,
        None => {
            return Err(
                ContractError::Std(StdError::NotFound { kind: String::from_str("Poll") }),
            );
        },
    };
    if !poll.in_progress(block_height) {
        return Err(generic_err("Poll is not in progress"));
    }
    if already_voted {
        return Err(generic_err("User has already voted."));
    }
    let contract_available_balance = match load_available_balance(contract_balance, poll_state) {
        Ok(v) => v,
        Err(e) => {
            return Err(ContractError::Std(e));
        },
    };
    let mut staker_state = staker_state;
    if !staker_state.can_vote(staking_state, contract_available_balance, amount) {
        return Err(generic_err("User does not have enough staked tokens."));
    }
    let mut response = make_response("cast_vote");
    let vote = poll.vote(&mut staker_state, sender.clone(), option, amount);
    let _ = poll.snapshot_staked_amount(poll_config, block_height, contract_available_balance);
    response = response.add_attribute("poll_id", u64_to_string(poll_id));
    response = response.add_attribute("amount", uint_to_string(amount));
    response = response.add_attribute("voter", sender);
    response = response.add_attribute("voter_option", option.to_string());
    Ok((poll, staker_state, vote, response))
}

/// The response of `end_poll`: the deposit goes back to the creator when the
/// quorum was reached (and there is one).
pub open spec fn end_poll_response(
    governance_token: Seq<char>,
    p: Poll,
    poll_id: u64,
    result: PollResult,
) -> ResponseView {
    let base = action_response("end_poll"@);
    let with_refund = if result != PollResult::QuorumNotReached && p.deposit_amount != 0 {
        with_msg(base, transfer_msg(governance_token, p.creator@, p.deposit_amount))
    } else {
        base
    };
    with_attr(
        with_attr(
            with_attr(with_refund, "poll_id"@, spec_decimal(poll_id as nat)),
            "result"@,
            spec_result_str(result),
        ),
        "passed"@,
        spec_bool_str(result == PollResult::Passed),
    )
}

/// `end_poll` stays within 128 bits and divides by non-zero amounts.
pub open spec fn end_poll_defined(
    poll: Poll,
    staking_state: StakingState,
    contract_balance: u128,
    poll_state: PollState,
) -> bool {
    result_defined(poll, staking_state.total_share, contract_balance - poll_state.total_deposit)
        || (needs_available(poll, staking_state.total_share) && contract_balance
        < poll_state.total_deposit && spec_tallied(poll) <= u128::MAX)
}

/// Whether `end_poll` stays within 128 bits and divides by non-zero amounts.
pub fn end_poll_fits(
    poll: &Poll,
    staking_state: &StakingState,
    contract_balance: u128,
    poll_state: &PollState,
) -> (r: bool)
    ensures
        r == end_poll_defined(*poll, *staking_state, contract_balance, *poll_state),
{
    if poll.yes_votes > u128::MAX - poll.no_votes || poll.yes_votes + poll.no_votes > u128::MAX
        - poll.abstain_votes {
        return false;
    }
    let tallied = poll.yes_votes + poll.no_votes + poll.abstain_votes;
    if staking_state.total_share == 0 {
        return true;
    }
    let base = match poll.snapped_staked_amount {
        Some(v) => v,
        None => {
            if contract_balance < poll_state.total_deposit {
                proof {
                    let n = tallied * 1_000_000_000_000_000_000int;
                    let d = contract_balance - poll_state.total_deposit;
                    assert(n / d <= 0) by (nonlinear_arith)
                        requires
                            n >= 0,
                            d < 0,
                    ;
                }
                return true;
            }
            contract_balance - poll_state.total_deposit
        },
    };
    base != 0 && checked_multiply_ratio(tallied, DECIMAL_FRACTIONAL, base).is_some()
}

/// Ends the vote on `poll` (the poll `poll_id`) once its voting period is
/// over. The poll passes when the quorum and the threshold are reached and
/// is rejected otherwise; the deposit is refunded unless the quorum was
/// missed, and it leaves the total deposit in any case. The result holds the
/// poll and the poll counters to store.
pub fn end_poll(
    contract_config: &ContractConfig,
    poll_config: &PollConfig,
    poll_state: &PollState,
    staking_state: &StakingState,
    poll: Poll,
    contract_balance: u128,
    block_height: u64,
    poll_id: u64,
) -> (r: Result<(Poll, PollState, Response), ContractError>)
    requires
        poll.status == PollStatus::InProgress && poll.end_height <= block_height
            ==> end_poll_defined(poll, *staking_state, contract_balance, *poll_state),
    ensures
        poll.status != PollStatus::InProgress ==> r is Err && is_generic_err(
            r->Err_0,
            "Poll is not in progress"@,
        ),
        poll.status == PollStatus::InProgress && poll.end_height > block_height ==> r is Err
            && is_generic_err(r->Err_0, "Voting period has not expired"@),
        poll.status == PollStatus::InProgress && poll.end_height <= block_height ==> ({
            let available = contract_balance - poll_state.total_deposit;
            let result = spec_poll_result(
                poll,
                *poll_config,
                spec_quorum(poll, staking_state.total_share, available),
            );
            let staked = spec_quorum_base(poll, staking_state.total_share, available);
            &&& needs_available(poll, staking_state.total_share) && available < 0 ==> r is Err
                && r->Err_0 is Std && is_sub_overflow(
                r->Err_0->Std_0,
                contract_balance,
                poll_state.total_deposit,
            )
            &&& !(needs_available(poll, staking_state.total_share) && available < 0)
                && poll_state.total_deposit < poll.deposit_amount ==> r is Err && r->Err_0 is Std
                && is_sub_overflow(r->Err_0->Std_0, poll_state.total_deposit, poll.deposit_amount)
            &&& !(needs_available(poll, staking_state.total_share) && available < 0)
                && poll_state.total_deposit >= poll.deposit_amount ==> {
                &&& r is Ok
                &&& r->Ok_0.0 == (Poll {
                    status: if result == PollResult::Passed {
                        PollStatus::Passed
                    } else {
                        PollStatus::Rejected
                    },
                    total_balance_at_end_poll: Some(staked as u128),
                    ..poll
                })
                &&& r->Ok_0.1 == spec_state_after_end(*poll_state, poll)
                &&& r->Ok_0.2@ == end_poll_response(
                    contract_config.governance_token@,
                    poll,
                    poll_id,
                    result,
                )
            }
        }),
{
    let mut poll = poll;
    if poll.status != PollStatus::InProgress {
        return Err(generic_err("Poll is not in progress"));
    }
    if poll.end_height > block_height {
        return Err(generic_err("Voting period has not expired"));
    }
    let mut response = make_response("end_poll");
    let (poll_result, staked_amount) = match poll.get_result(
        poll_config,
        staking_state,
        contract_balance,
        poll_state,
    ) {
        Ok(v) => v,
        Err(e) => {
            return Err(ContractError::Std(e));
        },
    };
    poll.status = if poll_result == PollResult::Passed {
        PollStatus::Passed
    } else {
        PollStatus::Rejected
    };
    if poll_result != PollResult::QuorumNotReached && poll.deposit_amount != 0 {
        response = response.add_message(
            contract_config.governance_token.clone(),
            ExecuteBody::Cw20Transfer { recipient: poll.creator.clone(), amount: poll.deposit_amount },
        );
    }
    poll.total_balance_at_end_poll = Some(staked_amount);
    let total_deposit = match checked_sub(poll_state.total_deposit, poll.deposit_amount) {
        Ok(v) => v,
        Err(e) => {
            return Err(ContractError::Std(e));
        },
    };
    let new_state = PollState { poll_count: poll_state.poll_count, total_deposit };
    response = response.add_attribute("poll_id", u64_to_string(poll_id));
    response = response.add_attribute("result", poll_result.to_string());
    response = response.add_attribute(
        "passed",
        bool_to_string(poll_result == PollResult::Passed),
    );
    Ok((poll, new_state, response))
}

/// `s` holds the executions of `executions` sorted by their order, those of
/// equal order as they were given.
pub open spec fn stably_sorted(s: Seq<ExecutionMsgView>, executions: Seq<ExecutionMsg>) -> bool {
    &&& sorted_by_order(s)
    &&& s.to_multiset() == executions_view(executions).to_multiset()
    &&& forall|k: u64| #[trigger] with_order(s, k) == with_order(executions_view(executions), k)
}

/// The sub-message that sends an execution's message to its contract and
/// always replies under `REPLY_EXECUTION`.
pub open spec fn execution_reply_msg(e: ExecutionMsgView) -> SubMsgView {
    SubMsgView {
        id: REPLY_EXECUTION,
        contract_addr: e.contract,
        msg: ExecuteBodyView::Binary(e.msg),
        reply_on: ReplyOn::Always,
    }
}

/// The replying sub-messages of the executions of `s`, in the order of `s`.
pub open spec fn execution_reply_msgs(s: Seq<ExecutionMsgView>) -> Seq<SubMsgView> {
    s.map_values(|e: ExecutionMsgView| execution_reply_msg(e))
}

/// `response` with a replying sub-message for each execution, in the order
/// given.
fn add_execution_replies(response: Response, executions: &Vec<ExecutionMsg>) -> (r: Response)
    ensures
        r@.attributes == response@.attributes,
        r@.messages == response@.messages + execution_reply_msgs(executions_view(executions@)),
{
    let mut response = response;
    let ghost start = response@;
    let n = executions.len();
    let mut i: usize = 0;
    while i < n
        invariant
            n == executions@.len(),
            i <= n,
            response@.attributes == start.attributes,
            response@.messages == start.messages + execution_reply_msgs(
                executions_view(executions@).take(i as int),
            ),
        decreases n - i,
    {
        let e = copy_execution_ref(&executions[i]);
        response = response.add_submessage(
            SubMsg {
                id: REPLY_EXECUTION,
                contract_addr: e.contract,
                msg: ExecuteBody::Binary(e.msg),
                reply_on: ReplyOn::Always,
            },
        );
        proof {
            assert(executions_view(executions@).take(i + 1) =~= executions_view(executions@).take(
                i as int,
            ).push(executions@[i as int]@));
            assert(response@.messages =~= start.messages + execution_reply_msgs(
                executions_view(executions@).take(i + 1),
            ));
        }
        i = i + 1;
    }
    proof {
        assert(executions_view(executions@).take(n as int) =~= executions_view(executions@));
    }
    response
}

/// Executes a passed poll once the execution delay after its end is over:
/// each of the poll's executions, sorted by order (those of equal order as
/// they were given), is sent to its contract as a sub-message that always
/// replies to `reply_execution`. A poll without executions cannot be
/// executed. The result holds the execution context to store.
pub fn execute_poll(
    poll_config: &PollConfig,
    poll: &Poll,
    block_height: u64,
    poll_id: u64,
) -> (r: Result<(PollExecutionContext, Response), ContractError>)
    requires
        poll.status == PollStatus::Passed ==> poll.end_height + poll_config.execution_delay_period
            <= u64::MAX,
    ensures
        poll.status != PollStatus::Passed ==> r is Err && is_generic_err(
            r->Err_0,
            "Poll is not in passed status"@,
        ),
        poll.status == PollStatus::Passed && poll.end_height + poll_config.execution_delay_period
            > block_height ==> r is Err && is_generic_err(
            r->Err_0,
            "Execution delay period has not expired"@,
        ),
        poll.status == PollStatus::Passed && poll.end_height + poll_config.execution_delay_period
            <= block_height && poll.executions@.len() == 0 ==> r is Err && is_generic_err(
            r->Err_0,
            "The poll does not have executions"@,
        ),
        poll.status == PollStatus::Passed && poll.end_height + poll_config.execution_delay_period
            <= block_height && poll.executions@.len() > 0 ==> {
            &&& r is Ok
            &&& r->Ok_0.0 == (PollExecutionContext {
                poll_id: poll.id,
                execution_count: poll.executions@.len() as u64,
            })
            &&& exists|s: Seq<ExecutionMsgView>|
                stably_sorted(s, poll.executions@) && #[trigger] execution_reply_msgs(s)
                    == r->Ok_0.1@.messages
            &&& r->Ok_0.1@.attributes == action_response("execute_poll"@).attributes.push(
                ("poll_id"@, spec_decimal(poll_id as nat)),
            )
        },
{
    if poll.status != PollStatus::Passed {
        return Err(generic_err("Poll is not in passed status"));
    }
    if poll.end_height + poll_config.execution_delay_period > block_height {
        return Err(generic_err("Execution delay period has not expired"));
    }
    if poll.executions.len() == 0 {
        return Err(generic_err("The poll does not have executions"));
    }
    let executions = sort_executions(&poll.executions);
    let context = PollExecutionContext {
        poll_id: poll.id,
        execution_count: poll.executions.len() as u64,
    };
    let mut response = add_execution_replies(make_response("execute_poll"), &executions);
    response = response.add_attribute("poll_id", u64_to_string(poll_id));
    proof {
        assert(stably_sorted(executions_view(executions@), poll.executions@));
        assert(execution_reply_msgs(executions_view(executions@)) =~= response@.messages);
    }
    Ok((context, response))
}

/// The plain messages that send each execution's message to its contract.
pub open spec fn execution_messages(s: Seq<ExecutionMsgView>) -> Seq<SubMsgView> {
    s.map_values(|e: ExecutionMsgView| plain_msg(e.contract, ExecuteBodyView::Binary(e.msg)))
}

/// `response` with a plain message for each execution, in the order given,
/// that sends the execution's message to its contract.
pub(crate) fn add_execution_messages(response: Response, executions: &Vec<ExecutionMsg>) -> (r:
    Response)
    ensures
        r@.attributes == response@.attributes,
        r@.messages == response@.messages + execution_messages(executions_view(executions@)),
{
    let mut response = response;
    let ghost start = response@;
    let n = executions.len();
    let mut i: usize = 0;
    while i < n
        invariant
            n == executions@.len(),
            i <= n,
            response@.attributes == start.attributes,
            response@.messages == start.messages + execution_messages(
                executions_view(executions@).take(i as int),
            ),
        decreases n - i,
    {
        let e = copy_execution_ref(&executions[i]);
        response = response.add_message(e.contract, ExecuteBody::Binary(e.msg));
        proof {
            assert(executions_view(executions@).take(i + 1) =~= executions_view(executions@).take(
                i as int,
            ).push(executions@[i as int]@));
            assert(response@.messages =~= start.messages + execution_messages(
                executions_view(executions@).take(i + 1),
            ));
        }
        i = i + 1;
    }
    proof {
        assert(executions_view(executions@).take(n as int) =~= executions_view(executions@));
    }
    response
}

/// Sends the messages of `executions` to their contracts, by increasing
/// order (those of equal order as they were given); only the contract itself
/// may call.
pub fn run_execution(contract_address: &String, sender: &String, executions: Vec<ExecutionMsg>) -> (r:
    Result<Response, ContractError>)
    ensures
        contract_address@ != sender@ ==> r == Err::<Response, ContractError>(
            ContractError::Unauthorized,
        ),
        contract_address@ == sender@ ==> r is Ok && (exists|s: Seq<ExecutionMsgView>|
            {
                &&& sorted_by_order(s)
                &&& s.to_multiset() == executions_view(executions@).to_multiset()
                &&& forall|k: u64|
                    #[trigger] with_order(s, k) == with_order(executions_view(executions@), k)
                &&& r->Ok_0@.messages == execution_messages(s)
            }) && r->Ok_0@.attributes == action_response("run_execution"@).attributes.push(
            ("execution_count"@, spec_decimal(executions@.len() as nat)),
        ),
{
    if *contract_address != *sender {
        return Err(ContractError::Unauthorized);
    }
    let sorted = sort_executions(&executions);
    let n = sorted.len();
    let mut response = add_execution_messages(make_response("run_execution"), &sorted);
    response = response.add_attribute("execution_count", u64_to_string(n as u64));
    Ok(response)
}

/// A copy of an execution.
fn copy_execution_ref(e: &ExecutionMsg) -> (r: ExecutionMsg)
    ensures
        r@ == e@,
{
    crate::governance::poll::copy_execution(e)
}

/// Records how the execution of the poll in `context` went: the poll becomes
/// executed when the sub-message succeeded (`succeeded`) and failed otherwise.
/// A poll that already went through this cannot again. The result holds the
/// poll to store; the context is then cleared.
pub fn reply_execution(poll: Poll, succeeded: bool) -> (r: Result<(Poll, Response), ContractError>)
    ensures
        poll.status == PollStatus::Failed || poll.status == PollStatus::Executed ==> r is Err
            && is_generic_err(r->Err_0, "Already executed"@),
        !(poll.status == PollStatus::Failed || poll.status == PollStatus::Executed) ==> {
            let status = if succeeded {
                PollStatus::Executed
            } else {
                PollStatus::Failed
            };
            &&& r is Ok
            &&& r->Ok_0.0 == (Poll { status, ..poll })
            &&& r->Ok_0.1@ == with_attr(
                action_response("reply_execution"@),
                "poll_status"@,
                spec_status_str(status),
            )
        },
{
    let mut poll = poll;
    if poll.status == PollStatus::Failed || poll.status == PollStatus::Executed {
        return Err(generic_err("Already executed"));
    }
    let mut response = make_response("reply_execution");
    poll.status = if succeeded {
        PollStatus::Executed
    } else {
        PollStatus::Failed
    };
    response = response.add_attribute("poll_status", poll.status.to_string());
    Ok((poll, response))
}

/// The replies still due once the first reply of the execution in `context`
/// has recorded the poll's outcome: one for each further execution.
pub fn execution_progress(context: PollExecutionContext) -> (r: Option<PollExecutionProgress>)
    ensures
        context.execution_count <= 1 ==> r is None,
        context.execution_count > 1 ==> r == Some(
            PollExecutionProgress {
                poll_id: context.poll_id,
                remaining: (context.execution_count - 1) as u64,
            },
        ),
{
    if context.execution_count <= 1 {
        None
    } else {
        Some(
            PollExecutionProgress {
                poll_id: context.poll_id,
                remaining: context.execution_count - 1,
            },
        )
    }
}

/// Records the reply of a further execution of the poll in `progress`, after
/// the first reply recorded the poll's outcome: a failed execution makes the
/// poll failed, a successful one leaves it as it is. The result holds the
/// poll to store and the replies still due, if any.
pub fn reply_later_execution(poll: Poll, progress: PollExecutionProgress, succeeded: bool) -> (r: (
    Poll,
    Option<PollExecutionProgress>,
    Response,
))
    requires
        progress.remaining >= 1,
    ensures
        ({
            let status = if succeeded {
                poll.status
            } else {
                PollStatus::Failed
            };
            &&& r.0 == (Poll { status, ..poll })
            &&& r.1 == (if progress.remaining == 1 {
                None
            } else {
                Some(
                    PollExecutionProgress {
                        poll_id: progress.poll_id,
                        remaining: (progress.remaining - 1) as u64,
                    },
                )
            })
            &&& r.2@ == with_attr(
                action_response("reply_execution"@),
                "poll_status"@,
                spec_status_str(status),
            )
        }),
{
    let mut poll = poll;
    if !succeeded {
        poll.status = PollStatus::Failed;
    }
    let mut response = make_response("reply_execution");
    response = response.add_attribute("poll_status", poll.status.to_string());
    let next = if progress.remaining == 1 {
        None
    } else {
        Some(PollExecutionProgress { poll_id: progress.poll_id, remaining: progress.remaining - 1 })
    };
    (poll, next, response)
}

/// Snapshots the available amount for the quorum of a poll in progress,
/// within the snapshot period and only once. The result holds the poll to
/// store.
pub fn snapshot_poll(
    poll_config: &PollConfig,
    poll_state: &PollState,
    poll: Poll,
    contract_balance: u128,
    block_height: u64,
    poll_id: u64,
) -> (r: Result<(Poll, Response), ContractError>)
    requires
        poll.status == PollStatus::InProgress ==> block_height <= poll.end_height,
    ensures
        poll.status != PollStatus::InProgress ==> r is Err && is_generic_err(
            r->Err_0,
            "Poll is not in progress"@,
        ),
        poll.status == PollStatus::InProgress ==> ({
            let available = contract_balance - poll_state.total_deposit;
            &&& available < 0 ==> r is Err && r->Err_0 is Std && is_sub_overflow(
                r->Err_0->Std_0,
                contract_balance,
                poll_state.total_deposit,
            )
            &&& available >= 0 && poll.end_height - block_height > poll_config.snapshot_period
                ==> r is Err && is_generic_err(r->Err_0, "Cannot snapshot at this height"@)
            &&& available >= 0 && poll.end_height - block_height <= poll_config.snapshot_period
                && poll.snapped_staked_amount is Some ==> r is Err && is_generic_err(
                r->Err_0,
                "Snapshot has already occurred"@,
            )
            &&& available >= 0 && poll.end_height - block_height <= poll_config.snapshot_period
                && poll.snapped_staked_amount is None ==> r is Ok && r->Ok_0.0 == (Poll {
                snapped_staked_amount: Some(available as u128),
                ..poll
            }) && r->Ok_0.1@ == with_attr(
                with_attr(
                    action_response("snapshot_poll"@),
                    "poll_id"@,
                    spec_decimal(poll_id as nat),
                ),
                "staked_amount"@,
                spec_decimal(available as nat),
            )
        }),
{
    let mut poll = poll;
    if poll.status != PollStatus::InProgress {
        return Err(generic_err("Poll is not in progress"));
    }
    let mut response = make_response("snapshot_poll");
    let contract_available_balance = match load_available_balance(contract_balance, poll_state) {
        Ok(v) => v,
        Err(e) => {
            return Err(ContractError::Std(e));
        },
    };
    let staked_amount = match poll.snapshot_staked_amount(
        poll_config,
        block_height,
        contract_available_balance,
    ) {
        Ok(v) => v,
        Err(e) => {
            return Err(ContractError::Std(e));
        },
    };
    response = response.add_attribute("poll_id", u64_to_string(poll_id));
    response = response.add_attribute("staked_amount", uint_to_string(staked_amount));
    Ok((poll, response))
}

} // verus!
