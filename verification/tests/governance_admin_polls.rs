use valkyrie_contracts::errors::{ContractError, StdError};
use valkyrie_contracts::governance::common::contracts::instantiate as common_instantiate;
use valkyrie_contracts::governance::poll::contracts::{
    cast_vote, create_poll, end_poll, execute_poll, expire_poll, instantiate, snapshot_poll,
    update_poll_config,
};
use valkyrie_contracts::governance::poll::state::{
    Execution, Poll, PollConfig, PollConfigInitMsg, PollState, VoterInfo,
};
use valkyrie_contracts::governance::poll::{PollStatus, VoteOption};
use valkyrie_contracts::governance::staking::state::{StakingIndividualState, StakingState};
use valkyrie_contracts::math::Decimal;
use valkyrie_contracts::messages::{Attribute, ExecuteBody, ReplyOn, SubMsg};

const HEIGHT: u64 = 1000;

fn attr(key: &str, value: &str) -> Attribute {
    Attribute { key: key.to_string(), value: value.to_string() }
}

fn expect_generic_err<T: std::fmt::Debug>(result: &Result<T, ContractError>, msg: &str) {
    match result {
        Err(ContractError::Std(StdError::GenericErr { msg: m })) => assert_eq!(m, msg),
        other => panic!("unexpected result: {:?}", other),
    }
}

fn config() -> PollConfig {
    let (config, state, response) = instantiate(PollConfigInitMsg {
        quorum: Decimal::percent(30),
        threshold: Decimal::percent(50),
        voting_period: 30,
        execution_delay_period: 20,
        expiration_period: 100,
        proposal_deposit: 100,
        snapshot_period: 10,
    }).unwrap();
    assert_eq!(state, PollState { poll_count: 0, total_deposit: 0 });
    assert!(response.messages.is_empty() && response.attributes.is_empty());
    config
}

fn execution(order: u64, contract: &str) -> Execution {
    Execution { order, contract: contract.as_bytes().to_vec(), msg: vec![order as u8] }
}

fn new_poll(config: &PollConfig, executions: Option<Vec<Execution>>) -> (Poll, PollState) {
    let mut state = PollState { poll_count: 0, total_deposit: 0 };
    let (poll, response) = create_poll(
        config,
        &mut state,
        "Token".to_string(),
        HEIGHT,
        b"creator".to_vec(),
        100,
        "PollTitle".to_string(),
        "PollDescription".to_string(),
        None,
        executions,
    ).unwrap();
    assert_eq!(response.attributes, vec![
        attr("action", "create_poll"),
        attr("creator", "Token"),
        attr("poll_id", "1"),
        attr("end_height", "1030"),
    ]);
    (poll, state)
}

fn vote(
    config: &PollConfig,
    staking: &StakingState,
    poll: Poll,
    balance: u128,
    height: u64,
    option: VoteOption,
    amount: u128,
) -> Result<(Poll, StakingIndividualState), ContractError> {
    let staker = StakingIndividualState { share: 100, locked_balance: vec![] };
    let (poll, staker, _) = cast_vote(
        config,
        &PollState { poll_count: 1, total_deposit: 100 },
        staking,
        Some(poll),
        false,
        staker,
        balance,
        height,
        "Voter".to_string(),
        1,
        option,
        amount,
    )?;
    Ok((poll, staker))
}

#[test]
fn admin_polls_create_poll_and_instantiate_checks() {
    let config = config();
    let (poll, state) = new_poll(&config, None);
    assert_eq!(state, PollState { poll_count: 1, total_deposit: 100 });
    assert_eq!(poll.end_height, HEIGHT + 30);
    assert_eq!(poll.status, PollStatus::InProgress);
    assert_eq!(poll.creator, b"creator".to_vec());

    let mut state = PollState { poll_count: 0, total_deposit: 0 };
    let result = create_poll(
        &config, &mut state, "Token".to_string(), HEIGHT, b"creator".to_vec(), 99,
        "PollTitle".to_string(), "PollDescription".to_string(), None, None,
    );
    expect_generic_err(&result, "Must deposit more than 100 token");
    assert_eq!(state, PollState { poll_count: 0, total_deposit: 0 });

    let result = instantiate(PollConfigInitMsg {
        quorum: Decimal::percent(101),
        threshold: Decimal::percent(50),
        voting_period: 30,
        execution_delay_period: 20,
        expiration_period: 100,
        proposal_deposit: 100,
        snapshot_period: 10,
    });
    expect_generic_err(&result, "quorum must be 0 to 1");
}

#[test]
fn admin_polls_abstain_counts_as_no_and_snapshot_is_strict() {
    let config = config();
    let (poll, _) = new_poll(&config, None);
    let staking = StakingState { total_share: 300, total_deposit: 100 };

    // Ten blocks before the end is not within the snapshot period.
    let (poll, staker) = vote(&config, &staking, poll, 400, HEIGHT + 20, VoteOption::Abstain, 50).unwrap();
    assert_eq!(poll.no_votes, 50);
    assert_eq!(poll.yes_votes, 0);
    assert_eq!(poll.staked_amount, None);
    assert_eq!(staker.locked_balance, vec![(1, VoterInfo { vote: VoteOption::Abstain, balance: 50 })]);

    let (poll, _) = vote(&config, &staking, poll, 400, HEIGHT + 21, VoteOption::Yes, 60).unwrap();
    assert_eq!(poll.yes_votes, 60);
    assert_eq!(poll.staked_amount, Some(300));

    let result = vote(&config, &staking, poll, 400, HEIGHT + 21, VoteOption::Yes, 101);
    expect_generic_err(&result.map(|_| ()), "User does not have enough staked tokens.");
}

#[test]
fn admin_polls_end_poll_and_execute() {
    let config = config();
    let (poll, _) = new_poll(&config, Some(vec![execution(2, "b"), execution(1, "a"), execution(2, "c")]));
    let staking = StakingState { total_share: 300, total_deposit: 100 };
    let (poll, _) = vote(&config, &staking, poll, 400, HEIGHT, VoteOption::Yes, 100).unwrap();
    let (poll, _) = vote(&config, &staking, poll, 400, HEIGHT, VoteOption::No, 20).unwrap();

    let result = end_poll(&config, &staking, poll.clone(), "Token".to_string(), "Creator".to_string(), 400, HEIGHT, 1);
    expect_generic_err(&result, "Voting period has not expired");

    let (poll, staking, response) = end_poll(
        &config, &staking, poll, "Token".to_string(), "Creator".to_string(), 400, HEIGHT + 30, 1,
    ).unwrap();
    assert_eq!(poll.status, PollStatus::Passed);
    assert_eq!(poll.total_balance_at_end_poll, Some(300));
    assert_eq!(staking, StakingState { total_share: 300, total_deposit: 0 });
    assert_eq!(response.messages, vec![SubMsg {
        id: 0,
        contract_addr: "Token".to_string(),
        msg: ExecuteBody::Cw20Transfer { recipient: "Creator".to_string(), amount: 100 },
        reply_on: ReplyOn::Never,
    }]);
    assert_eq!(response.attributes, vec![
        attr("action", "end_poll"),
        attr("poll_id", "1"),
        attr("rejected_reason", ""),
        attr("passed", "true"),
    ]);

    let contracts = vec!["B".to_string(), "A".to_string(), "C".to_string()];
    let result = execute_poll(&config, poll.clone(), contracts.clone(), HEIGHT + 49, 1);
    expect_generic_err(&result, "Timelock period has not expired");

    let (executed, response) = execute_poll(&config, poll.clone(), contracts, HEIGHT + 50, 1).unwrap();
    assert_eq!(executed.status, PollStatus::Executed);
    let sent: Vec<(String, ExecuteBody)> = response.messages.iter().map(|m| (m.contract_addr.clone(), m.msg.clone())).collect();
    assert_eq!(sent, vec![
        ("A".to_string(), ExecuteBody::Binary(vec![1])),
        ("B".to_string(), ExecuteBody::Binary(vec![2])),
        ("C".to_string(), ExecuteBody::Binary(vec![2])),
    ]);
    assert_eq!(response.attributes, vec![attr("action", "execute_poll"), attr("poll_id", "1")]);

    let result = expire_poll(&config, poll.clone(), HEIGHT + 129, 1);
    expect_generic_err(&result, "Expire height has not been reached");
    let (expired, response) = expire_poll(&config, poll, HEIGHT + 130, 1).unwrap();
    assert_eq!(expired.status, PollStatus::Expired);
    assert_eq!(response.attributes, vec![attr("action", "expire_poll"), attr("poll_id", "1")]);
}

#[test]
fn admin_polls_quorum_not_reached_keeps_deposit() {
    let config = config();
    let (poll, _) = new_poll(&config, None);
    let staking = StakingState { total_share: 300, total_deposit: 100 };
    let (poll, _) = vote(&config, &staking, poll, 400, HEIGHT, VoteOption::Yes, 10).unwrap();
    let (poll, staking, response) = end_poll(
        &config, &staking, poll, "Token".to_string(), "Creator".to_string(), 400, HEIGHT + 30, 1,
    ).unwrap();
    assert_eq!(poll.status, PollStatus::Rejected);
    assert!(response.messages.is_empty());
    assert_eq!(response.attributes[2], attr("rejected_reason", "Quorum not reached"));
    assert_eq!(staking.total_deposit, 0);

    let result = execute_poll(&config, poll.clone(), vec![], HEIGHT + 50, 1);
    expect_generic_err(&result, "Poll is not in passed status");
    let mut passed = poll;
    passed.status = PollStatus::Passed;
    let result = execute_poll(&config, passed.clone(), vec![], HEIGHT + 50, 1);
    expect_generic_err(&result, "The poll does now have executions");
    let result = expire_poll(&config, passed, HEIGHT + 500, 1);
    expect_generic_err(&result, "Cannot make a text proposal to expired state");
}

#[test]
fn admin_polls_snapshot_and_config() {
    let config = config();
    let (poll, _) = new_poll(&config, None);
    let staking = StakingState { total_share: 300, total_deposit: 100 };

    let result = snapshot_poll(&config, &staking, poll.clone(), 400, HEIGHT, 1);
    expect_generic_err(&result, "Cannot snapshot at this height");
    let (snapped, response) = snapshot_poll(&config, &staking, poll, 400, HEIGHT + 20, 1).unwrap();
    assert_eq!(snapped.staked_amount, Some(300));
    assert_eq!(response.attributes, vec![
        attr("action", "snapshot_poll"),
        attr("poll_id", "1"),
        attr("staked_amount", "300"),
    ]);
    let result = snapshot_poll(&config, &staking, snapped, 400, HEIGHT + 20, 1);
    expect_generic_err(&result, "Snapshot has already occurred");

    let (contract_config, _) = common_instantiate(b"admin".to_vec(), b"token".to_vec());
    let mut c = config;
    let result = update_poll_config(&contract_config, &mut c, b"other".to_vec(), None, None, Some(1), None, None, None, None);
    assert_eq!(result, Err(ContractError::Unauthorized));
    update_poll_config(&contract_config, &mut c, b"admin".to_vec(), None, None, Some(1), None, Some(7), None, None).unwrap();
    assert_eq!(c.voting_period, 1);
    assert_eq!(c.expiration_period, 7);
    assert_eq!(c.quorum, config.quorum);
}
