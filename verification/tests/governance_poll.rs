use valkyrie_contracts::errors::{ContractError, StdError};
use valkyrie_contracts::governance::common::ContractConfigInitMsg;
use valkyrie_contracts::governance::entrypoints::{instantiate, GovernanceSetup, InstantiateMsg};
use valkyrie_contracts::governance::poll::executions::{
    cast_vote, cast_vote_fits, create_poll, create_poll_fits, end_poll, execute_poll, execution_progress, reply_execution,
    reply_later_execution, run_execution,
    snapshot_poll, PollConfigInitMsg, REPLY_EXECUTION,
};
use valkyrie_contracts::governance::poll::queries::{get_poll, get_poll_config, get_poll_state};
use valkyrie_contracts::governance::poll::{
    Poll, PollExecutionContext, PollExecutionProgress, PollResult, PollStatus, VoteInfo, VoteOption,
};
use valkyrie_contracts::governance::staking::executions::{
    stake_governance_token, StakingConfigInitMsg,
};
use valkyrie_contracts::governance::staking::StakerState;
use valkyrie_contracts::math::Decimal;
use valkyrie_contracts::messages::{
    Attribute, ExecuteBody, ExecutionMsg, ReplyOn, Response, SubMsg,
};

const GOVERNANCE: &str = "Governance";
const GOVERNANCE_TOKEN: &str = "GovernanceToken";
const DEFAULT_SENDER: &str = "DefaultSender";
const BLOCK_HEIGHT: u64 = 12345;

const POLL_QUORUM_PERCENT: u64 = 30;
const POLL_THRESHOLD_PERCENT: u64 = 50;
const POLL_VOTING_PERIOD: u64 = 30;
const POLL_EXECUTION_DELAY_PERIOD: u64 = 20;
const POLL_PROPOSAL_DEPOSIT: u128 = 100;
const POLL_SNAPSHOT_PERIOD: u64 = 10;

const PROPOSER1: &str = "Proposer1";
const POLL_TITLE: &str = "PollTitle";
const POLL_DESCRIPTION: &str = "PollDescription";
const POLL_LINK: &str = "https://poll.link";

const VOTER1: &str = "Voter1";
const VOTER2: &str = "Voter2";
const VOTER3: &str = "Voter3";

/// The governance contract's stored state, driven through the library.
struct Gov {
    setup: GovernanceSetup,
    balance: u128,
    polls: Vec<Poll>,
    stakers: Vec<StakerState>,
    votes: Vec<(u64, VoteInfo)>,
    context: Option<PollExecutionContext>,
}

fn attr(key: &str, value: &str) -> Attribute {
    Attribute { key: key.to_string(), value: value.to_string() }
}

fn expect_generic_err<T: std::fmt::Debug>(result: &Result<T, ContractError>, msg: &str) {
    match result {
        Err(ContractError::Std(StdError::GenericErr { msg: m })) => assert_eq!(m, msg),
        other => panic!("unexpected result: {:?}", other),
    }
}

fn expect_unauthorized_err<T: std::fmt::Debug>(result: &Result<T, ContractError>) {
    match result {
        Err(ContractError::Unauthorized) => {},
        other => panic!("unexpected result: {:?}", other),
    }
}

fn json_of(value: &cw20::Cw20ExecuteMsg) -> Vec<u8> {
    cosmwasm_std::to_json_binary(value).unwrap().to_vec()
}

fn mock_exec_msg(order: u64) -> ExecutionMsg {
    ExecutionMsg {
        order,
        contract: format!("Contract{}", order),
        msg: json_of(&cw20::Cw20ExecuteMsg::Burn { amount: cosmwasm_std::Uint128::new(1) }),
    }
}

impl Gov {
    fn init_default() -> Gov {
        let msg = InstantiateMsg {
            contract_config: ContractConfigInitMsg { governance_token: GOVERNANCE_TOKEN.to_string() },
            staking_config: StakingConfigInitMsg { distributor: None },
            poll_config: PollConfigInitMsg {
                quorum: Decimal::percent(POLL_QUORUM_PERCENT),
                threshold: Decimal::percent(POLL_THRESHOLD_PERCENT),
                voting_period: POLL_VOTING_PERIOD,
                execution_delay_period: POLL_EXECUTION_DELAY_PERIOD,
                proposal_deposit: POLL_PROPOSAL_DEPOSIT,
                snapshot_period: POLL_SNAPSHOT_PERIOD,
            },
        };
        let (setup, _) = instantiate(GOVERNANCE.to_string(), msg).unwrap();
        Gov { setup, balance: 0, polls: vec![], stakers: vec![], votes: vec![], context: None }
    }

    fn poll(&self, poll_id: u64) -> Poll {
        self.polls[(poll_id - 1) as usize].clone()
    }

    fn staker(&self, address: &str) -> Option<StakerState> {
        self.stakers.iter().find(|s| s.address == address).cloned()
    }

    fn save_staker(&mut self, staker: StakerState) {
        self.stakers.retain(|s| s.address != staker.address);
        self.stakers.push(staker);
    }

    fn create_poll_exec(
        &mut self,
        sender: &str,
        proposer: &str,
        deposit_amount: u128,
        title: &str,
        description: &str,
        link: Option<&str>,
        executions: Vec<ExecutionMsg>,
    ) -> Result<Response, ContractError> {
        self.balance += deposit_amount;
        let (poll, response) = create_poll(
            &self.setup.contract_config,
            &self.setup.poll_config,
            &mut self.setup.poll_state,
            &sender.to_string(),
            BLOCK_HEIGHT,
            proposer.to_string(),
            deposit_amount,
            title.to_string(),
            description.to_string(),
            link.map(|l| l.to_string()),
            executions,
        )?;
        self.polls.push(poll);
        Ok(response)
    }

    fn create_poll_default(&mut self) -> Response {
        self.create_poll_exec(
            GOVERNANCE_TOKEN,
            PROPOSER1,
            POLL_PROPOSAL_DEPOSIT,
            POLL_TITLE,
            POLL_DESCRIPTION,
            None,
            vec![],
        ).unwrap()
    }

    fn create_poll_with_executions(&mut self, executions: Vec<ExecutionMsg>) -> Response {
        self.create_poll_exec(
            GOVERNANCE_TOKEN,
            PROPOSER1,
            POLL_PROPOSAL_DEPOSIT,
            POLL_TITLE,
            POLL_DESCRIPTION,
            Some(POLL_LINK),
            executions,
        ).unwrap()
    }

    fn stake_exec(&mut self, sender: &str, staker: &str, amount: u128) -> Result<Response, ContractError> {
        self.balance += amount;
        let state = self.staker(staker).unwrap_or(StakerState::default(staker.to_string()));
        let (staking_state, staker_state, response) = stake_governance_token(
            &self.setup.contract_config,
            &self.setup.staking_config,
            &GOVERNANCE.to_string(),
            &sender.to_string(),
            &self.setup.staking_state,
            &self.setup.poll_state,
            state,
            self.balance,
            staker.to_string(),
            amount,
        )?;
        self.setup.staking_state = staking_state;
        self.save_staker(staker_state);
        Ok(response)
    }

    fn stake(&mut self, staker: &str, amount: u128) {
        self.stake_exec(GOVERNANCE_TOKEN, staker, amount).unwrap();
    }

    fn cast_vote_exec(
        &mut self,
        height: u64,
        voter: &str,
        poll_id: u64,
        option: VoteOption,
        amount: u128,
    ) -> Result<Response, ContractError> {
        let poll = if poll_id >= 1 && poll_id as usize <= self.polls.len() {
            Some(self.poll(poll_id))
        } else {
            None
        };
        let already_voted = self.votes.iter().any(|(id, v)| *id == poll_id && v.voter == voter);
        let staker = self.staker(voter).unwrap_or(StakerState::default(voter.to_string()));
        let (poll, staker, vote, response) = cast_vote(
            &self.setup.poll_state,
            &self.setup.poll_config,
            &self.setup.staking_state,
            poll,
            already_voted,
            staker,
            self.balance,
            height,
            voter.to_string(),
            poll_id,
            option,
            amount,
        )?;
        self.polls[(poll_id - 1) as usize] = poll;
        self.save_staker(staker);
        self.votes.push((poll_id, vote));
        Ok(response)
    }

    fn cast_vote(&mut self, voter: &str, poll_id: u64, option: VoteOption, amount: u128) -> Response {
        self.cast_vote_exec(BLOCK_HEIGHT, voter, poll_id, option, amount).unwrap()
    }

    fn end_poll_exec(&mut self, height: u64, poll_id: u64) -> Result<Response, ContractError> {
        let (poll, poll_state, response) = end_poll(
            &self.setup.contract_config,
            &self.setup.poll_config,
            &self.setup.poll_state,
            &self.setup.staking_state,
            self.poll(poll_id),
            self.balance,
            height,
            poll_id,
        )?;
        self.polls[(poll_id - 1) as usize] = poll;
        self.setup.poll_state = poll_state;
        for m in response.messages.iter() {
            if let ExecuteBody::Cw20Transfer { amount, .. } = &m.msg {
                if m.contract_addr == GOVERNANCE_TOKEN {
                    self.balance -= amount;
                }
            }
        }
        Ok(response)
    }

    fn end_poll(&mut self, poll_id: u64) -> (u64, Response) {
        let height = self.poll(poll_id).end_height + 1;
        (height, self.end_poll_exec(height, poll_id).unwrap())
    }

    fn execute_poll_exec(&mut self, height: u64, poll_id: u64) -> Result<Response, ContractError> {
        let (context, response) = execute_poll(
            &self.setup.poll_config,
            &self.poll(poll_id),
            height,
            poll_id,
        )?;
        self.context = Some(context);
        Ok(response)
    }

    fn execute_poll(&mut self, poll_id: u64) -> Response {
        let height = self.poll(poll_id).end_height + POLL_EXECUTION_DELAY_PERIOD;
        self.execute_poll_exec(height, poll_id).unwrap()
    }

    fn reply(&mut self, succeeded: bool) -> Result<Response, ContractError> {
        let context = self.context.unwrap();
        let (poll, response) = reply_execution(self.poll(context.poll_id), succeeded)?;
        self.polls[(context.poll_id - 1) as usize] = poll;
        self.context = None;
        Ok(response)
    }

    fn snapshot_exec(&mut self, height: u64, poll_id: u64) -> Result<Response, ContractError> {
        let (poll, response) = snapshot_poll(
            &self.setup.poll_config,
            &self.setup.poll_state,
            self.poll(poll_id),
            self.balance,
            height,
            poll_id,
        )?;
        self.polls[(poll_id - 1) as usize] = poll;
        Ok(response)
    }
}

fn vote_attrs(poll_id: u64, result: PollResult, passed: bool) -> Vec<Attribute> {
    vec![
        attr("action", "end_poll"),
        attr("poll_id", &poll_id.to_string()),
        attr("result", &result.to_string()),
        attr("passed", if passed { "true" } else { "false" }),
    ]
}

#[test]
fn cast_vote_succeed() {
    let mut gov = Gov::init_default();
    gov.create_poll_default();
    gov.stake(VOTER1, 100);

    let poll_id = 1u64;
    gov.cast_vote(VOTER1, poll_id, VoteOption::Yes, 100);

    let vote_info = VoteInfo { voter: VOTER1.to_string(), option: VoteOption::Yes, amount: 100 };
    let staker_state = gov.staker(VOTER1).unwrap();
    assert_eq!(staker_state.votes, vec![(poll_id, vote_info.clone())]);

    let poll = gov.poll(poll_id);
    assert_eq!(poll.yes_votes, 100);

    let voter = gov.votes.iter().find(|(id, v)| *id == poll_id && v.voter == VOTER1).unwrap();
    assert_eq!(voter.1, vote_info);
}

#[test]
fn failed_cast_vote_not_enough_staked() {
    let mut gov = Gov::init_default();
    gov.create_poll_default();
    gov.stake(VOTER1, 100);

    let result = gov.cast_vote_exec(BLOCK_HEIGHT, VOTER1, 1, VoteOption::Yes, 101);
    expect_generic_err(&result, "User does not have enough staked tokens.");
}

#[test]
fn failed_cast_vote_without_poll() {
    let mut gov = Gov::init_default();
    gov.create_poll_default();
    gov.stake(VOTER1, 100);

    let result = gov.cast_vote_exec(BLOCK_HEIGHT, VOTER1, 0, VoteOption::Yes, 100);
    expect_generic_err(&result, "Poll does not exist");
}

#[test]
fn failed_cast_vote_twice() {
    let mut gov = Gov::init_default();
    gov.create_poll_default();
    gov.stake(VOTER1, 100);

    gov.cast_vote(VOTER1, 1, VoteOption::Yes, 10);
    let result = gov.cast_vote_exec(BLOCK_HEIGHT, VOTER1, 1, VoteOption::Yes, 10);
    expect_generic_err(&result, "User has already voted.");
}

#[test]
fn create_poll_succeed() {
    let mut gov = Gov::init_default();
    let execution_msgs = vec![mock_exec_msg(2), mock_exec_msg(1), mock_exec_msg(3)];

    let response = gov.create_poll_with_executions(execution_msgs.clone());
    assert_eq!(response.attributes, vec![
        attr("action", "create_poll"),
        attr("creator", PROPOSER1),
        attr("poll_id", "1"),
        attr("end_height", &(BLOCK_HEIGHT + POLL_VOTING_PERIOD).to_string()),
    ]);

    let poll = get_poll(Some(gov.poll(1))).unwrap();
    assert_eq!(poll, Poll {
        id: 1,
        creator: PROPOSER1.to_string(),
        status: PollStatus::InProgress,
        yes_votes: 0,
        no_votes: 0,
        abstain_votes: 0,
        end_height: BLOCK_HEIGHT + POLL_VOTING_PERIOD,
        title: POLL_TITLE.to_string(),
        description: POLL_DESCRIPTION.to_string(),
        link: Some(POLL_LINK.to_string()),
        executions: execution_msgs,
        deposit_amount: POLL_PROPOSAL_DEPOSIT,
        total_balance_at_end_poll: None,
        snapped_staked_amount: None,
    });

    let polls: Vec<&Poll> = gov.polls.iter().filter(|p| p.status == PollStatus::InProgress).collect();
    assert_eq!(polls.len(), 1);
    assert_eq!(polls.first().unwrap().id, 1);

    let state = get_poll_state(&gov.setup.poll_state);
    assert_eq!(state.poll_count, 1);
    assert_eq!(state.total_deposit, POLL_PROPOSAL_DEPOSIT);
}

#[test]
fn create_poll_failed_invalid_permission() {
    let mut gov = Gov::init_default();
    let result = gov.create_poll_exec(
        DEFAULT_SENDER,
        PROPOSER1,
        POLL_PROPOSAL_DEPOSIT,
        POLL_TITLE,
        POLL_DESCRIPTION,
        None,
        vec![],
    );
    expect_unauthorized_err(&result);
}

#[test]
fn failed_create_poll_invalid_deposit() {
    let mut gov = Gov::init_default();
    let result = gov.create_poll_exec(
        GOVERNANCE_TOKEN,
        PROPOSER1,
        POLL_PROPOSAL_DEPOSIT - 1,
        POLL_TITLE,
        POLL_DESCRIPTION,
        None,
        vec![],
    );
    expect_generic_err(&result, format!("Must deposit more than {} token", POLL_PROPOSAL_DEPOSIT).as_str());
}

const LONG_TEXT: &str = "0123456789012345678901234567890123456789012345678901234567890123401234567890123456789012345678901234567890123456789012345678901234012345678901234567890123456789012345678901234567890123456789012340123456789012345678901234567890123456789012345678901234567890123401234567890123456789012345678901234567890123456789012345678901234";

const LONG_DESCRIPTION: &str = "0123456789012345678901234567890123456789012345678901234567890123401234567890123456789012345678901234567890123456789012345678901234012345678901234567890123456789012345678901234567890123456789012340123456789012345678901234567890123456789012345678901234567890123401234567890123456789012345678901234567890123456789012345678901234012345678901234567890123456789012345678901234567890123456789012340123456789012345678901234567890123456789012345678901234567890123401234567890123456789012345678901234567890123456789012345678901234012345678901234567890123456789012345678901234567890123456789012340123456789012345678901234567890123456789012345678901234567890123401234567890123456789012345678901234567890123456789012345678901234012345678901234567890123456789012345678901234567890123456789012340123456789012345678901234567890123456789012345678901234567890123401234567890123456789012345678901234567890123456789012345678901234012345678901234567890123456789012345678901234567890123456789012340123456789012345678901234567890123456789012345678901234567890123401234567890123456789012345678901234567890123456789012345678901234012345678901234567890123456789012345678901234567890123456789012340123456789012345678901234567890123456789012345678901234567890123401234567890123456789012345678901234567890123456789012345678901234012345678901234567890123456789012345678901234567890123456789012340123456789012345678901234567890123456789012345678901234567890123401234567890123456789012345678901234567890123456789012345678901234012345678901234567890123456789012345678901234567890123456789012340123456789012345678901234567890123456789012345678901234567890123401234567890123456789012345678901234567890123456789012345678901234012345678901234567890123456789012345678901234567890123456789012340123456789012345678901234567890123456789012345678901234567890123401234567890123456789012345678901234567890123456789012345678901234012345678901234567890123456789012345678901234567890123456789012340123456789012345678901234567890123456789012345678901234567890123401234567890123456789012345678901234567890123456789012345678901234012345678901234567890123456789012345678901234567890123456789012340123456789012345678901234567890123456789012345678901234567890123401234567890123456789012345678901234567890123456789012345678901234";

#[test]
fn failed_create_poll_invalid_title() {
    let mut gov = Gov::init_default();
    let result = gov.create_poll_exec(
        GOVERNANCE_TOKEN, PROPOSER1, POLL_PROPOSAL_DEPOSIT, "a", POLL_DESCRIPTION, None, vec![],
    );
    expect_generic_err(&result, "Title too short");

    let result = gov.create_poll_exec(
        GOVERNANCE_TOKEN, PROPOSER1, POLL_PROPOSAL_DEPOSIT, LONG_TEXT, POLL_DESCRIPTION, None, vec![],
    );
    expect_generic_err(&result, "Title too long");
}

#[test]
fn failed_create_poll_invalid_description() {
    let mut gov = Gov::init_default();
    let result = gov.create_poll_exec(
        GOVERNANCE_TOKEN, PROPOSER1, POLL_PROPOSAL_DEPOSIT, POLL_TITLE, "a", None, vec![],
    );
    expect_generic_err(&result, "Description too short");

    let long_description = LONG_DESCRIPTION;
    let result = gov.create_poll_exec(
        GOVERNANCE_TOKEN,
        PROPOSER1,
        POLL_PROPOSAL_DEPOSIT,
        POLL_TITLE,
        long_description,
        None,
        vec![],
    );
    expect_generic_err(&result, "Description too long");
}

#[test]
fn failed_create_poll_invalid_link() {
    let mut gov = Gov::init_default();
    let result = gov.create_poll_exec(
        GOVERNANCE_TOKEN,
        PROPOSER1,
        POLL_PROPOSAL_DEPOSIT,
        POLL_TITLE,
        POLL_DESCRIPTION,
        Some("http://"),
        vec![],
    );
    expect_generic_err(&result, "Link too short");

    let result = gov.create_poll_exec(
        GOVERNANCE_TOKEN,
        PROPOSER1,
        POLL_PROPOSAL_DEPOSIT,
        POLL_TITLE,
        POLL_DESCRIPTION,
        Some(LONG_TEXT),
        vec![],
    );
    expect_generic_err(&result, "Link too long");
}

#[test]
fn failed_create_poll_transfer() {
    let mut gov = Gov::init_default();

    let transfer = ExecutionMsg {
        order: 0,
        contract: GOVERNANCE_TOKEN.to_string(),
        msg: json_of(&cw20::Cw20ExecuteMsg::Transfer {
            amount: cosmwasm_std::Uint128::new(1),
            recipient: GOVERNANCE.to_string(),
        }),
    };
    let result = gov.create_poll_exec(
        GOVERNANCE_TOKEN, PROPOSER1, POLL_PROPOSAL_DEPOSIT, POLL_TITLE, POLL_DESCRIPTION, None,
        vec![transfer],
    );
    expect_generic_err(&result, "Can't use Transfer message");

    let send = ExecutionMsg {
        order: 0,
        contract: GOVERNANCE_TOKEN.to_string(),
        msg: json_of(&cw20::Cw20ExecuteMsg::Send {
            amount: cosmwasm_std::Uint128::new(1),
            contract: GOVERNANCE.to_string(),
            msg: cosmwasm_std::Binary::default(),
        }),
    };
    let result = gov.create_poll_exec(
        GOVERNANCE_TOKEN, PROPOSER1, POLL_PROPOSAL_DEPOSIT, POLL_TITLE, POLL_DESCRIPTION, None,
        vec![send],
    );
    expect_generic_err(&result, "Can't use Send message");

    let increase = ExecutionMsg {
        order: 0,
        contract: GOVERNANCE_TOKEN.to_string(),
        msg: json_of(&cw20::Cw20ExecuteMsg::IncreaseAllowance {
            amount: cosmwasm_std::Uint128::new(1),
            spender: GOVERNANCE.to_string(),
            expires: None,
        }),
    };
    let result = gov.create_poll_exec(
        GOVERNANCE_TOKEN, PROPOSER1, POLL_PROPOSAL_DEPOSIT, POLL_TITLE, POLL_DESCRIPTION, None,
        vec![increase],
    );
    expect_generic_err(&result, "Can't use IncreaseAllowance message");
}

fn three_stakers() -> Gov {
    let mut gov = Gov::init_default();
    gov.create_poll_default();
    gov.stake(VOTER1, 100);
    gov.stake(VOTER2, 100);
    gov.stake(VOTER3, 100);
    gov
}

#[test]
fn succeed_passed() {
    let mut gov = three_stakers();
    let poll_id = 1u64;
    gov.cast_vote(VOTER1, poll_id, VoteOption::Yes, 100);
    gov.cast_vote(VOTER2, poll_id, VoteOption::No, 30);
    gov.cast_vote(VOTER3, poll_id, VoteOption::Abstain, 100);

    gov.end_poll(poll_id);
    assert_eq!(gov.poll(poll_id).status, PollStatus::Passed);
}

#[test]
fn succeed_rejected_threshold_not_reached() {
    let mut gov = three_stakers();
    let poll_id = 1u64;
    gov.cast_vote(VOTER1, poll_id, VoteOption::Yes, 30);
    gov.cast_vote(VOTER2, poll_id, VoteOption::No, 100);
    gov.cast_vote(VOTER3, poll_id, VoteOption::Abstain, 10);

    let (_, response) = gov.end_poll(poll_id);
    assert_eq!(response.messages, vec![SubMsg {
        id: 0,
        contract_addr: GOVERNANCE_TOKEN.to_string(),
        msg: ExecuteBody::Cw20Transfer {
            recipient: PROPOSER1.to_string(),
            amount: POLL_PROPOSAL_DEPOSIT,
        },
        reply_on: ReplyOn::Never,
    }]);
    assert_eq!(response.attributes, vote_attrs(poll_id, PollResult::ThresholdNotReached, false));
    assert_eq!(gov.poll(poll_id).status, PollStatus::Rejected);
}

#[test]
fn succeed_rejected_quorum_not_reached() {
    let mut gov = three_stakers();
    let poll_id = 1u64;
    gov.cast_vote(VOTER1, poll_id, VoteOption::Yes, 1);

    let (_, response) = gov.end_poll(poll_id);
    assert_eq!(gov.poll(poll_id).status, PollStatus::Rejected);
    assert_eq!(response.attributes, vote_attrs(poll_id, PollResult::QuorumNotReached, false));
}

#[test]
fn succeed_rejected_zero_quorum() {
    let mut gov = three_stakers();
    let poll_id = 1u64;

    let (_, response) = gov.end_poll(poll_id);
    assert_eq!(gov.poll(poll_id).status, PollStatus::Rejected);
    assert_eq!(response.attributes, vote_attrs(poll_id, PollResult::QuorumNotReached, false));
}

#[test]
fn succeed_end_poll_with_controlled_quorum() {}

#[test]
fn succeed_rejected_nothing_staked() {
    let mut gov = Gov::init_default();
    gov.create_poll_default();
    let poll_id = 1u64;

    let (_, response) = gov.end_poll(poll_id);
    assert_eq!(gov.poll(poll_id).status, PollStatus::Rejected);
    assert_eq!(response.attributes, vote_attrs(poll_id, PollResult::QuorumNotReached, false));
}

#[test]
fn failed_before_end_height() {
    let mut gov = Gov::init_default();
    gov.create_poll_default();

    let result = gov.end_poll_exec(BLOCK_HEIGHT, 1);
    expect_generic_err(&result, "Voting period has not expired");
}

#[test]
fn failed_quorum_inflation_without_snapshot_poll() {
    let mut gov = Gov::init_default();
    gov.create_poll_default();
    gov.stake(VOTER1, 100);

    let poll_id = 1u64;
    gov.cast_vote(VOTER1, poll_id, VoteOption::Yes, 100);

    gov.stake(VOTER2, 1000);

    let height = gov.poll(poll_id).end_height - POLL_SNAPSHOT_PERIOD + 1;
    gov.cast_vote_exec(height, VOTER2, poll_id, VoteOption::Yes, 100).unwrap();

    let (_, response) = gov.end_poll(poll_id);
    assert_eq!(response.attributes, vote_attrs(poll_id, PollResult::QuorumNotReached, false));

    let poll = gov.poll(poll_id);
    assert_eq!(poll.status, PollStatus::Rejected);
    assert_eq!(poll.snapped_staked_amount, Some(1100));
}

fn passed_poll_with_executions(option: VoteOption) -> Gov {
    let mut gov = Gov::init_default();
    gov.create_poll_with_executions(vec![mock_exec_msg(2), mock_exec_msg(1), mock_exec_msg(3)]);
    gov.stake(VOTER1, 100);
    gov.cast_vote(VOTER1, 1, option, 100);
    gov.end_poll(1);
    gov
}

#[test]
fn execute_poll_succeed() {
    let mut gov = passed_poll_with_executions(VoteOption::Yes);
    let poll_id = 1u64;

    let sorted_execution_msgs = vec![mock_exec_msg(1), mock_exec_msg(2), mock_exec_msg(3)];

    let sub_msgs: Vec<SubMsg> = sorted_execution_msgs.iter().map(|e| SubMsg {
        id: REPLY_EXECUTION,
        contract_addr: e.contract.clone(),
        msg: ExecuteBody::Binary(e.msg.clone()),
        reply_on: ReplyOn::Always,
    }).collect();

    let response = gov.execute_poll(poll_id);
    assert_eq!(response.messages, sub_msgs);

    assert_eq!(gov.context.unwrap(), PollExecutionContext { poll_id, execution_count: 3 });
}

#[test]
fn failed_not_passed() {
    let mut gov = passed_poll_with_executions(VoteOption::No);
    let height = gov.poll(1).end_height + POLL_EXECUTION_DELAY_PERIOD;
    let result = gov.execute_poll_exec(height, 1);
    expect_generic_err(&result, "Poll is not in passed status");
}

#[test]
fn failed_in_execution_delay() {
    let mut gov = Gov::init_default();
    gov.create_poll_with_executions(vec![mock_exec_msg(2), mock_exec_msg(1), mock_exec_msg(3)]);
    gov.stake(VOTER1, 100);
    gov.cast_vote(VOTER1, 1, VoteOption::Yes, 100);
    let (height, _) = gov.end_poll(1);

    let result = gov.execute_poll_exec(height, 1);
    expect_generic_err(&result, "Execution delay period has not expired");
}

#[test]
fn failed_empty_execution() {
    let mut gov = Gov::init_default();
    gov.create_poll_default();
    gov.stake(VOTER1, 100);
    gov.cast_vote(VOTER1, 1, VoteOption::Yes, 100);
    gov.end_poll(1);

    let height = gov.poll(1).end_height + POLL_EXECUTION_DELAY_PERIOD;
    let result = gov.execute_poll_exec(height, 1);
    expect_generic_err(&result, "The poll does not have executions");
}

#[test]
fn failed_invalid_threshold() {
    let result = valkyrie_contracts::governance::poll::executions::instantiate(PollConfigInitMsg {
        quorum: Decimal::percent(101),
        threshold: Decimal::percent(POLL_THRESHOLD_PERCENT),
        voting_period: POLL_VOTING_PERIOD,
        execution_delay_period: POLL_EXECUTION_DELAY_PERIOD,
        proposal_deposit: POLL_PROPOSAL_DEPOSIT,
        snapshot_period: POLL_SNAPSHOT_PERIOD,
    });
    expect_generic_err(&result, "quorum must be 0 to 1");
}

#[test]
fn failed_invalid_quorum() {
    let result = valkyrie_contracts::governance::poll::executions::instantiate(PollConfigInitMsg {
        quorum: Decimal::percent(POLL_QUORUM_PERCENT),
        threshold: Decimal::percent(101),
        voting_period: POLL_VOTING_PERIOD,
        execution_delay_period: POLL_EXECUTION_DELAY_PERIOD,
        proposal_deposit: POLL_PROPOSAL_DEPOSIT,
        snapshot_period: POLL_SNAPSHOT_PERIOD,
    });
    expect_generic_err(&result, "threshold must be 0 to 1");
}

#[test]
fn succeed_success_reply() {
    let mut gov = passed_poll_with_executions(VoteOption::Yes);
    gov.execute_poll(1);
    let context = gov.context.unwrap();

    gov.reply(true).unwrap();
    assert!(gov.context.is_none());
    assert_eq!(gov.poll(context.poll_id).status, PollStatus::Executed);
}

#[test]
fn succeed_failed_reply() {
    let mut gov = passed_poll_with_executions(VoteOption::Yes);
    gov.execute_poll(1);
    let context = gov.context.unwrap();

    gov.reply(false).unwrap();
    assert!(gov.context.is_none());
    assert_eq!(gov.poll(context.poll_id).status, PollStatus::Failed);
}

#[test]
fn run_execution_succeed() {
    let executions = vec![mock_exec_msg(1), mock_exec_msg(2)];
    let response = run_execution(
        &GOVERNANCE.to_string(),
        &GOVERNANCE.to_string(),
        executions.clone(),
    ).unwrap();
    assert_eq!(response.messages, executions.iter().map(|e| SubMsg {
        id: 0,
        contract_addr: e.contract.clone(),
        msg: ExecuteBody::Binary(e.msg.clone()),
        reply_on: ReplyOn::Never,
    }).collect::<Vec<SubMsg>>());
}

#[test]
fn run_execution_failed_invalid_permission() {
    let result = run_execution(&GOVERNANCE.to_string(), &DEFAULT_SENDER.to_string(), vec![]);
    expect_unauthorized_err(&result);
}

#[test]
fn snapshot_poll_succeed() {
    let mut gov = Gov::init_default();
    gov.create_poll_default();
    gov.stake(VOTER1, 100);
    gov.stake(VOTER2, 100);
    let poll_id = 1u64;

    let result = gov.snapshot_exec(BLOCK_HEIGHT, poll_id);
    expect_generic_err(&result, "Cannot snapshot at this height");

    let height = gov.poll(poll_id).end_height - 1;
    let response = gov.snapshot_exec(height, poll_id).unwrap();
    assert_eq!(response.attributes, vec![
        attr("action", "snapshot_poll"),
        attr("poll_id", &poll_id.to_string()),
        attr("staked_amount", &(100u128 + 100).to_string()),
    ]);
}

#[test]
fn succeed_within_cast_vote() {
    let mut gov = Gov::init_default();
    gov.create_poll_default();
    gov.stake(VOTER1, 100);
    gov.stake(VOTER2, 100);
    let poll_id = 1u64;

    gov.cast_vote(VOTER1, poll_id, VoteOption::Yes, 100);

    let height = gov.poll(poll_id).end_height - POLL_SNAPSHOT_PERIOD + 1;
    gov.cast_vote_exec(height, VOTER2, poll_id, VoteOption::Yes, 10).unwrap();
    assert_eq!(gov.poll(poll_id).snapped_staked_amount, Some(200));

    let result = gov.snapshot_exec(height, poll_id);
    expect_generic_err(&result, "Snapshot has already occurred");

    gov.stake(VOTER3, 100);
    gov.cast_vote_exec(height, VOTER3, poll_id, VoteOption::No, 50).unwrap();
    assert_eq!(gov.poll(poll_id).snapped_staked_amount, Some(200));
}

#[test]
fn failed_twice() {
    let mut gov = Gov::init_default();
    gov.create_poll_default();
    gov.stake(VOTER1, 100);
    gov.stake(VOTER2, 100);
    let poll_id = 1u64;

    let height = gov.poll(poll_id).end_height - 1;
    let response = gov.snapshot_exec(height, poll_id).unwrap();
    assert_eq!(response.attributes, vec![
        attr("action", "snapshot_poll"),
        attr("poll_id", &poll_id.to_string()),
        attr("staked_amount", &(100u128 + 100).to_string()),
    ]);

    let result = gov.snapshot_exec(height, poll_id);
    expect_generic_err(&result, "Snapshot has already occurred");
}

#[test]
fn stake_governance_token_succeed() {
    let mut gov = Gov::init_default();
    gov.stake("Staker1", 10);

    assert_eq!(gov.setup.staking_state.total_share, 10);
    assert_eq!(gov.staker("Staker1").unwrap().share, 10);
}

#[test]
fn failed_insufficient_funds() {
    let mut gov = Gov::init_default();
    let result = gov.stake_exec(GOVERNANCE_TOKEN, "Staker1", 0);
    expect_generic_err(&result, "Insufficient funds sent");
}

#[test]
fn failed_wrong_token() {
    let mut gov = Gov::init_default();
    let result = gov.stake_exec("Another Token", "Staker1", 10);
    expect_unauthorized_err(&result);
}

// The deposit of a poll leaves the total deposit when the vote ends, and the
// refund goes back only when the quorum was reached.
#[test]
fn deposit_returns_to_total_after_end() {
    let mut gov = three_stakers();
    assert_eq!(gov.setup.poll_state.total_deposit, POLL_PROPOSAL_DEPOSIT);
    gov.cast_vote(VOTER1, 1, VoteOption::Yes, 100);
    let (_, response) = gov.end_poll(1);
    assert_eq!(gov.setup.poll_state.total_deposit, 0);
    assert_eq!(gov.setup.poll_state.poll_count, 1);
    assert_eq!(response.messages.len(), 1);

    gov.create_poll_default();
    let (_, response) = gov.end_poll(2);
    assert_eq!(gov.setup.poll_state.total_deposit, 0);
    assert!(response.messages.is_empty());
}

#[test]
fn end_poll_not_in_progress() {
    let mut gov = passed_poll_with_executions(VoteOption::Yes);
    let height = gov.poll(1).end_height + 1;
    let result = gov.end_poll_exec(height, 1);
    expect_generic_err(&result, "Poll is not in progress");
}

#[test]
fn cast_vote_after_end_and_without_stored_poll() {
    let mut gov = Gov::init_default();
    gov.create_poll_default();
    gov.stake(VOTER1, 100);
    let height = gov.poll(1).end_height + 1;
    let result = gov.cast_vote_exec(height, VOTER1, 1, VoteOption::Yes, 10);
    expect_generic_err(&result, "Poll is not in progress");

    let result = gov.cast_vote_exec(BLOCK_HEIGHT, VOTER1, 2, VoteOption::Yes, 10);
    expect_generic_err(&result, "Poll does not exist");
}

#[test]
fn reply_twice_fails() {
    let mut gov = passed_poll_with_executions(VoteOption::Yes);
    gov.execute_poll(1);
    gov.reply(true).unwrap();
    gov.context = Some(PollExecutionContext { poll_id: 1, execution_count: 3 });
    let result = gov.reply(false);
    expect_generic_err(&result, "Already executed");
}

#[test]
fn poll_config_query() {
    let gov = Gov::init_default();
    let config = get_poll_config(&gov.setup.poll_config);
    assert_eq!(config.quorum, Decimal::percent(POLL_QUORUM_PERCENT));
    assert_eq!(config.threshold, Decimal::percent(POLL_THRESHOLD_PERCENT));
    assert_eq!(config.voting_period, POLL_VOTING_PERIOD);
    assert_eq!(config.proposal_deposit, POLL_PROPOSAL_DEPOSIT);
    assert!(get_poll(None).is_err());
}

#[test]
fn run_execution_keeps_equal_orders_as_given() {
    let exec = |order: u64, contract: &str| ExecutionMsg {
        order,
        contract: contract.to_string(),
        msg: json_of(&cw20::Cw20ExecuteMsg::Burn { amount: cosmwasm_std::Uint128::new(1) }),
    };
    let response = run_execution(
        &GOVERNANCE.to_string(),
        &GOVERNANCE.to_string(),
        vec![exec(1, "A"), exec(0, "B"), exec(1, "C"), exec(0, "D")],
    ).unwrap();
    let contracts: Vec<String> = response.messages.iter().map(|m| m.contract_addr.clone()).collect();
    assert_eq!(contracts, vec!["B", "D", "A", "C"]);
    assert_eq!(response.attributes, vec![attr("action", "run_execution"), attr("execution_count", "4")]);
}

#[test]
fn votes_add_exactly_their_amount() {
    let mut gov = three_stakers();
    gov.cast_vote(VOTER1, 1, VoteOption::Yes, 40);
    gov.cast_vote(VOTER2, 1, VoteOption::No, 25);
    gov.cast_vote(VOTER3, 1, VoteOption::Abstain, 7);
    let poll = gov.poll(1);
    assert_eq!((poll.yes_votes, poll.no_votes, poll.abstain_votes), (40, 25, 7));
}

#[test]
fn more_yes_votes_keep_a_passing_poll_passing() {
    let mut narrow = three_stakers();
    narrow.cast_vote(VOTER1, 1, VoteOption::Yes, 91);
    narrow.cast_vote(VOTER2, 1, VoteOption::No, 90);
    narrow.end_poll(1);
    assert_eq!(narrow.poll(1).status, PollStatus::Passed);

    let mut wider = three_stakers();
    wider.cast_vote(VOTER1, 1, VoteOption::Yes, 91);
    wider.cast_vote(VOTER2, 1, VoteOption::No, 90);
    wider.cast_vote(VOTER3, 1, VoteOption::Yes, 50);
    wider.end_poll(1);
    assert_eq!(wider.poll(1).status, PollStatus::Passed);
}

// Staking takes effect at once: the shares are bought in the same call and
// reported in its attributes.
#[test]
fn stake_reports_the_shares_bought() {
    let mut gov = Gov::init_default();
    let response = gov.stake_exec(GOVERNANCE_TOKEN, "Staker1", 10).unwrap();
    assert_eq!(response.messages, vec![]);
    assert_eq!(response.attributes, vec![
        attr("action", "stake_governance_token"),
        attr("sender", "Staker1"),
        attr("share", "10"),
        attr("amount", "10"),
    ]);
    let response = gov.stake_exec(GOVERNANCE_TOKEN, "Staker2", 20).unwrap();
    assert_eq!(response.attributes[2], attr("share", "20"));
    assert_eq!(gov.setup.staking_state.total_share, 30);
}

// With a distributor, the rewards are distributed first and the contract
// stakes through its own hook afterwards: nothing changes yet.
#[test]
fn stake_with_distributor_runs_the_hook_after_distribute() {
    let mut gov = Gov::init_default();
    gov.setup.staking_config.distributor = Some("Distributor".to_string());
    let response = gov.stake_exec(GOVERNANCE_TOKEN, "Staker1", 10).unwrap();
    assert_eq!(response.messages, vec![
        SubMsg {
            id: 0,
            contract_addr: "Distributor".to_string(),
            msg: ExecuteBody::Distribute,
            reply_on: ReplyOn::Never,
        },
        SubMsg {
            id: 0,
            contract_addr: GOVERNANCE.to_string(),
            msg: ExecuteBody::StakeGovernanceTokenHook { staker: "Staker1".to_string(), amount: 10 },
            reply_on: ReplyOn::Never,
        },
    ]);
    assert_eq!(gov.setup.staking_state.total_share, 0);
    assert_eq!(gov.staker("Staker1").unwrap().share, 0);
}

// Each execution of a poll replies: the first reply records the outcome, and
// a later failed execution still makes the poll failed.
#[test]
fn later_replies_count_down_and_record_failures() {
    let mut gov = passed_poll_with_executions(VoteOption::Yes);
    gov.execute_poll(1);
    let context = gov.context.unwrap();
    gov.reply(true).unwrap();
    assert_eq!(gov.poll(1).status, PollStatus::Executed);

    let progress = execution_progress(context).unwrap();
    assert_eq!(progress, PollExecutionProgress { poll_id: 1, remaining: 2 });

    let (poll, next, response) = reply_later_execution(gov.poll(1), progress, false);
    assert_eq!(poll.status, PollStatus::Failed);
    assert_eq!(next, Some(PollExecutionProgress { poll_id: 1, remaining: 1 }));
    assert_eq!(response.attributes, vec![attr("action", "reply_execution"), attr("poll_status", "failed")]);

    let (poll, next, _) = reply_later_execution(poll, next.unwrap(), true);
    assert_eq!(poll.status, PollStatus::Failed);
    assert_eq!(next, None);

    assert_eq!(execution_progress(PollExecutionContext { poll_id: 1, execution_count: 1 }), None);
}

// The bounds are asked only of calls that get past their checks: a refused
// call never reaches the arithmetic.
#[test]
fn refused_calls_need_no_bounds() {
    let mut gov = Gov::init_default();
    gov.setup.poll_state.poll_count = u64::MAX;
    let no_executions: Vec<ExecutionMsg> = vec![];
    assert!(create_poll_fits(
        &gov.setup.contract_config, &gov.setup.poll_config, &gov.setup.poll_state,
        &GOVERNANCE_TOKEN.to_string(), BLOCK_HEIGHT, POLL_PROPOSAL_DEPOSIT,
        &"no".to_string(), &POLL_DESCRIPTION.to_string(), &None, &no_executions,
    ));
    assert!(!create_poll_fits(
        &gov.setup.contract_config, &gov.setup.poll_config, &gov.setup.poll_state,
        &GOVERNANCE_TOKEN.to_string(), BLOCK_HEIGHT, POLL_PROPOSAL_DEPOSIT,
        &POLL_TITLE.to_string(), &POLL_DESCRIPTION.to_string(), &None, &no_executions,
    ));

    let mut gov = Gov::init_default();
    gov.create_poll_default();
    gov.stake(VOTER1, 100);
    let mut poll = gov.poll(1);
    poll.yes_votes = u128::MAX;
    let staker = gov.staker(VOTER1).unwrap();
    let state = gov.setup.poll_state;
    let staking = gov.setup.staking_state;
    assert!(cast_vote_fits(
        &state, &Some(poll.clone()), true, &staking, &staker, gov.balance, BLOCK_HEIGHT, 1,
        VoteOption::Yes, 10,
    ));
    assert!(!cast_vote_fits(
        &state, &Some(poll), false, &staking, &staker, gov.balance, BLOCK_HEIGHT, 1,
        VoteOption::Yes, 10,
    ));
}
