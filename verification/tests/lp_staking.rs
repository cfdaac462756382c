use valkyrie_contracts::errors::{ContractError, StdError};
use valkyrie_contracts::lp_staking::{
    approve_admin_nominee, bond_fits, instantiate, migrate_reward, query_config, query_staker_info,
    query_state, receive_cw20, unbond, update_config, withdraw, Config, Cw20HookMsg,
    InstantiateMsg, StakerInfo, State,
};
use valkyrie_contracts::math::{checked_multiply_ratio, Decimal};
use valkyrie_contracts::messages::{Attribute, ExecuteBody, ReplyOn, Response, SubMsg};
use valkyrie_contracts::schedule::{
    checked_schedule_distributed_amount, is_valid_schedule, ScheduleEntry,
};

const DEFAULT_SENDER: &str = "DefaultSender";
const LP_REWARD_TOKEN: &str = "LPRewardToken";
const LP_PAIR_TOKEN: &str = "LPPairToken";
const LP_LIQUIDITY_TOKEN: &str = "LPLiquidityToken";
const LP_WHITELISTED1: &str = "LPWhitelisted1";
const LP_WHITELISTED2: &str = "LPWhitelisted2";
const LP_DISTRIBUTION_SCHEDULE1: ScheduleEntry = (0, 100, 1_000_000);
const LP_DISTRIBUTION_SCHEDULE2: ScheduleEntry = (100, 200, 10_000_000);

/// The LP staking contract's stored state, driven through the library.
struct Lp {
    config: Config,
    state: State,
    admin_nominee: Option<String>,
    stakers: Vec<StakerInfo>,
}

fn attr(key: &str, value: &str) -> Attribute {
    Attribute { key: key.to_string(), value: value.to_string() }
}

fn transfer(token: &str, recipient: &str, amount: u128) -> SubMsg {
    SubMsg {
        id: 0,
        contract_addr: token.to_string(),
        msg: ExecuteBody::Cw20Transfer { recipient: recipient.to_string(), amount },
        reply_on: ReplyOn::Never,
    }
}

fn expect_generic_err<T: std::fmt::Debug>(result: &Result<T, ContractError>, msg: &str) {
    match result {
        Err(ContractError::Std(StdError::GenericErr { msg: m })) => assert_eq!(m, msg),
        other => panic!("unexpected result: {:?}", other),
    }
}

fn expect_unauthorized_err<T: std::fmt::Debug>(result: &Result<T, ContractError>) {
    match result {
        Err(ContractError::Unauthorized) => {},
        other => panic!("unexpected result: {:?}", other),
    }
}

impl Lp {
    fn new(
        sender: &str,
        height: u64,
        token: &str,
        pair: &str,
        lp_token: &str,
        whitelisted: Vec<String>,
        schedule: Vec<ScheduleEntry>,
    ) -> Result<(Lp, Response), ContractError> {
        let msg = InstantiateMsg {
            token: token.to_string(),
            pair: pair.to_string(),
            lp_token: lp_token.to_string(),
            whitelisted_contracts: whitelisted,
            distribution_schedule: schedule,
        };
        let (config, state, response) = instantiate(sender.to_string(), height, msg)?;
        Ok((Lp { config, state, admin_nominee: None, stakers: vec![] }, response))
    }

    fn default() -> Lp {
        Lp::new(
            DEFAULT_SENDER,
            0,
            LP_REWARD_TOKEN,
            LP_PAIR_TOKEN,
            LP_LIQUIDITY_TOKEN,
            vec![LP_WHITELISTED1.to_string(), LP_WHITELISTED2.to_string()],
            vec![LP_DISTRIBUTION_SCHEDULE1, LP_DISTRIBUTION_SCHEDULE2],
        ).unwrap().0
    }

    fn bare(token: &str, schedule: Vec<ScheduleEntry>) -> Lp {
        Lp::new("addr0000", 12345, token, "pair", "lp_token", vec![], schedule).unwrap().0
    }

    fn staker(&self, owner: &str) -> StakerInfo {
        self.stakers.iter().find(|s| s.owner == owner).cloned().unwrap_or(StakerInfo::default(
            owner.to_string(),
        ))
    }

    fn save_staker(&mut self, info: StakerInfo, remove: bool) {
        self.stakers.retain(|s| s.owner != info.owner);
        if !remove {
            self.stakers.push(info);
        }
    }

    fn bond(&mut self, token_contract: &str, height: u64, sender: &str, amount: u128) -> Result<Response, ContractError> {
        let mut info = self.staker(sender);
        let response = receive_cw20(
            &self.config,
            &mut self.state,
            &mut info,
            &token_contract.to_string(),
            true,
            height,
            sender.to_string(),
            amount,
            Cw20HookMsg::Bond,
        )?;
        self.save_staker(info, false);
        Ok(response)
    }

    fn unbond(&mut self, height: u64, sender: &str, amount: u128) -> Result<Response, ContractError> {
        let mut info = self.staker(sender);
        let (response, remove) = unbond(
            &self.config,
            &mut self.state,
            &mut info,
            height,
            sender.to_string(),
            amount,
        )?;
        self.save_staker(info, remove);
        Ok(response)
    }

    fn withdraw(&mut self, height: u64, sender: &str) -> Result<Response, ContractError> {
        let mut info = self.staker(sender);
        let (response, remove) = withdraw(
            &self.config,
            &mut self.state,
            &mut info,
            height,
            sender.to_string(),
        )?;
        self.save_staker(info, remove);
        Ok(response)
    }

    fn staker_info(&self, height: u64, staker: &str) -> valkyrie_contracts::lp_staking::StakerInfoResponse {
        query_staker_info(&self.config, &self.state, &self.staker(staker), height, staker.to_string())
            .unwrap()
    }

    fn update(
        &mut self,
        sender: &str,
        height: u64,
        token: Option<String>,
        pair: Option<String>,
        lp_token: Option<String>,
        admin: Option<String>,
        whitelisted_contracts: Option<Vec<String>>,
        distribution_schedule: Option<Vec<ScheduleEntry>>,
    ) -> Result<Response, ContractError> {
        update_config(
            &mut self.config,
            &mut self.state,
            &mut self.admin_nominee,
            &sender.to_string(),
            height,
            token,
            pair,
            lp_token,
            admin,
            whitelisted_contracts,
            distribution_schedule,
        )
    }
}

#[test]
fn bond_succeed() {
    let mut lp = Lp::default();
    lp.bond(LP_LIQUIDITY_TOKEN, 0, "sender1", 100).unwrap();
    lp.bond(LP_LIQUIDITY_TOKEN, 0, "sender2", 100).unwrap();

    let info1 = lp.staker("sender1");
    let info2 = lp.staker("sender2");

    assert_eq!(lp.state.total_bond_amount, 200);
    assert_eq!(lp.state.last_distributed, 0);
    assert_eq!(info1.pending_reward, 0);
    assert_eq!(info1.bond_amount, 100);
    assert_eq!(info2.pending_reward, 0);
    assert_eq!(info2.bond_amount, 100);
}

#[test]
fn instantiate_failed_invalid_schedule() {
    let result = Lp::new(
        DEFAULT_SENDER,
        0,
        LP_REWARD_TOKEN,
        LP_PAIR_TOKEN,
        LP_LIQUIDITY_TOKEN,
        vec![LP_WHITELISTED1.to_string(), LP_WHITELISTED2.to_string()],
        vec![(100, 100, 100)],
    );
    expect_generic_err(&result.map(|(_, r)| r), "invalid schedule");
}

#[test]
fn update_config_failed_invalid_schedule() {
    let mut lp = Lp::default();
    let before = lp.config.clone();
    let result = lp.update(
        DEFAULT_SENDER, 0, None, None, None, None, None, Some(vec![(0, 50, 50), (50, 50, 50)]),
    );
    expect_generic_err(&result, "invalid schedule");
    assert_eq!(lp.config, before);
}

#[test]
fn is_valid_distribution_schedule() {
    assert_eq!(is_valid_schedule(&vec![(200, 200, 1000000)]), false);
    assert_eq!(is_valid_schedule(&vec![(100, 200, 1000000), (180, 200, 1000000)]), false);
    assert_eq!(is_valid_schedule(&vec![(100, 200, 1000000), (200, 300, 1000000)]), true);
}

#[test]
fn calculation() {
    let mut lp = Lp::default();
    let mut height = 0u64;

    lp.bond(LP_LIQUIDITY_TOKEN, height, DEFAULT_SENDER, 100).unwrap();
    height += 100;
    lp.bond(LP_LIQUIDITY_TOKEN, height, DEFAULT_SENDER, 100).unwrap();

    let res = lp.staker_info(height, DEFAULT_SENDER);
    assert_eq!(res.pending_reward, 1000000);
    assert_eq!(res.bond_amount, 200);

    height += 10;
    lp.unbond(height, DEFAULT_SENDER, 100).unwrap();

    let res = lp.staker_info(height, DEFAULT_SENDER);
    assert_eq!(res.pending_reward, 2000000);
    assert_eq!(res.bond_amount, 100);

    height += 10;
    let res = lp.staker_info(height, DEFAULT_SENDER);
    assert_eq!(res.pending_reward, 3000000);
    assert_eq!(res.bond_amount, 100);
}

#[test]
fn testing_proper_initialization() {
    let lp = Lp::bare("reward0000", vec![(100, 200, 1000000)]);

    let config = query_config(&lp.config);
    assert_eq!(config.token, "reward0000");
    assert_eq!(config.pair, "pair");
    assert_eq!(config.lp_token, "lp_token");
    assert_eq!(config.distribution_schedule, vec![(100, 200, 1000000)]);

    let state = query_state(&lp.config, &lp.state, None);
    assert_eq!(state, State {
        last_distributed: 12345,
        total_bond_amount: 0,
        global_reward_index: Decimal::zero(),
    });
}

fn two_step_schedule() -> Vec<ScheduleEntry> {
    vec![(12345, 12345 + 100, 1000000), (12345 + 100, 12345 + 200, 10000000)]
}

#[test]
fn testing_test_bond_tokens() {
    let mut lp = Lp::bare("reward0000", two_step_schedule());
    let mut height = 12345u64;

    lp.bond("lp_token", height, "addr0000", 100).unwrap();
    let info = lp.staker_info(height, "addr0000");
    assert_eq!(info.staker_addr, "addr0000");
    assert_eq!(info.reward_index, Decimal::zero());
    assert_eq!(info.pending_reward, 0);
    assert_eq!(info.bond_amount, 100);
    assert_eq!(query_state(&lp.config, &lp.state, None), State {
        total_bond_amount: 100,
        global_reward_index: Decimal::zero(),
        last_distributed: 12345,
    });

    height += 10;
    lp.bond("lp_token", height, "addr0000", 100).unwrap();
    let info = lp.staker_info(height, "addr0000");
    assert_eq!(info.reward_index, Decimal::from_ratio(1000, 1));
    assert_eq!(info.pending_reward, 100000);
    assert_eq!(info.bond_amount, 200);
    assert_eq!(query_state(&lp.config, &lp.state, None), State {
        total_bond_amount: 200,
        global_reward_index: Decimal::from_ratio(1000, 1),
        last_distributed: 12345 + 10,
    });
}

#[test]
fn testing_test_unbond() {
    let mut lp = Lp::bare("reward0000", two_step_schedule());
    lp.bond("lp_token", 12345, "addr0000", 100).unwrap();

    let result = lp.unbond(12345, "addr0000", 150);
    expect_generic_err(&result, "Cannot unbond more than bond amount");

    let response = lp.unbond(12345, "addr0000", 100).unwrap();
    assert_eq!(response.messages, vec![transfer("lp_token", "addr0000", 100)]);
}

#[test]
fn testing_test_compute_reward() {
    let mut lp = Lp::bare("reward0000", two_step_schedule());
    let mut height = 12345u64;
    lp.bond("lp_token", height, "addr0000", 100).unwrap();

    height += 100;
    lp.bond("lp_token", height, "addr0000", 100).unwrap();
    let info = lp.staker_info(height, "addr0000");
    assert_eq!(info.reward_index, Decimal::from_ratio(10000, 1));
    assert_eq!(info.pending_reward, 1000000);
    assert_eq!(info.bond_amount, 200);

    height += 10;
    lp.unbond(height, "addr0000", 100).unwrap();
    let info = lp.staker_info(height, "addr0000");
    assert_eq!(info.reward_index, Decimal::from_ratio(15000, 1));
    assert_eq!(info.pending_reward, 2000000);
    assert_eq!(info.bond_amount, 100);

    let height = 12345 + 120;
    let info = lp.staker_info(height, "addr0000");
    assert_eq!(info.reward_index, Decimal::from_ratio(25000, 1));
    assert_eq!(info.pending_reward, 3000000);
    assert_eq!(info.bond_amount, 100);
}

#[test]
fn testing_test_withdraw() {
    let mut lp = Lp::bare("reward0000", two_step_schedule());
    lp.bond("lp_token", 12345, "addr0000", 100).unwrap();

    let response = lp.withdraw(12345 + 100, "addr0000").unwrap();
    assert_eq!(response.messages, vec![transfer("reward0000", "addr0000", 1000000)]);
}

#[test]
fn contract_test_proper_initialization() {
    let lp = Lp::new("addr", 12345, "reward", "pair", "lp_token", vec![], vec![]).unwrap().0;
    let config = query_config(&lp.config);
    assert_eq!(config.token, "reward");
    assert_eq!(config.pair, "pair");
    assert_eq!(config.lp_token, "lp_token");
}

#[test]
fn staking_test_test_bond_tokens() {
    let mut lp = Lp::new("addr", 12345, "reward", "pair", "lp_token", vec![], vec![]).unwrap().0;

    lp.bond("lp_token", 12345, "addr", 100).unwrap();
    let info = lp.staker_info(12345, "addr");
    assert_eq!(info.staker_addr, "addr");
    assert_eq!(info.pending_reward, 0);
    assert_eq!(info.bond_amount, 100);
    assert_eq!(lp.state.total_bond_amount, 100);
    assert_eq!(lp.state.global_reward_index, Decimal::zero());

    lp.bond("lp_token", 12345, "addr2", 100).unwrap();
    assert_eq!(lp.state.total_bond_amount, 200);
    assert_eq!(lp.state.global_reward_index, Decimal::zero());

    let result = lp.bond("staking2", 12345, "addr", 100);
    expect_unauthorized_err(&result);
}

#[test]
fn staking_test_test_unbond() {
    let mut lp = Lp::new("addr", 12345, "reward", "pair", "lp_token", vec![], vec![]).unwrap().0;
    lp.bond("lp_token", 12345, "addr", 100).unwrap();

    let result = lp.unbond(12345, "addr", 150);
    expect_generic_err(&result, "Cannot unbond more than bond amount");

    let response = lp.unbond(12345, "addr", 100).unwrap();
    assert_eq!(response.messages, vec![transfer("lp_token", "addr", 100)]);

    assert_eq!(lp.state.total_bond_amount, 0);
    assert_eq!(lp.state.global_reward_index, Decimal::zero());

    let info = lp.staker_info(12345, "addr");
    assert_eq!(info.staker_addr, "addr");
    assert_eq!(info.bond_amount, 0);
    assert_eq!(info.pending_reward, 0);
    assert!(lp.stakers.is_empty());
}

#[test]
fn update_config_failed_invalid_permission() {
    let mut lp = Lp::default();
    let result = lp.update(
        "terra1e8ryd9ezefuucd4mje33zdms9m2s90m57878v9",
        0,
        None,
        None,
        None,
        None,
        None,
        None,
    );
    expect_unauthorized_err(&result);
}

#[test]
fn admin_nominee_takes_over_on_approval() {
    let mut lp = Lp::default();
    let nominee = "Nominee";
    lp.update(DEFAULT_SENDER, 0, None, None, None, Some(nominee.to_string()), None, None).unwrap();
    assert_eq!(lp.config.admin, DEFAULT_SENDER);

    let result = approve_admin_nominee(&mut lp.config, &mut lp.admin_nominee, &"Other".to_string());
    expect_unauthorized_err(&result);

    let response = approve_admin_nominee(&mut lp.config, &mut lp.admin_nominee, &nominee.to_string())
        .unwrap();
    assert_eq!(lp.config.admin, nominee);
    assert_eq!(lp.admin_nominee, None);
    assert_eq!(response.attributes, vec![
        attr("action", "approve_admin_nominee"),
        attr("is_updated_admin", "true"),
    ]);

    let result = approve_admin_nominee(&mut lp.config, &mut lp.admin_nominee, &nominee.to_string());
    expect_unauthorized_err(&result);
}

#[test]
fn migrate_reward_only_admin() {
    let lp = Lp::default();
    let result = migrate_reward(&lp.config, &"Other".to_string(), "Recipient".to_string(), 10);
    expect_unauthorized_err(&result);

    let response = migrate_reward(&lp.config, &DEFAULT_SENDER.to_string(), "Recipient".to_string(), 10)
        .unwrap();
    assert_eq!(response.messages, vec![transfer(LP_REWARD_TOKEN, "Recipient", 10)]);
    assert_eq!(response.attributes, vec![
        attr("action", "migrate_reward"),
        attr("recipient", "Recipient"),
        attr("amount", "10"),
    ]);
}

#[test]
fn bond_and_unbond_at_same_height_restore_the_pool() {
    let mut lp = Lp::default();
    lp.bond(LP_LIQUIDITY_TOKEN, 0, "sender1", 100).unwrap();
    lp.bond(LP_LIQUIDITY_TOKEN, 50, "sender2", 40).unwrap();
    let state = lp.state;
    let info = lp.staker("sender1");

    lp.bond(LP_LIQUIDITY_TOKEN, 50, "sender1", 25).unwrap();
    lp.unbond(50, "sender1", 25).unwrap();
    assert_eq!(lp.state, state);
    assert_eq!(lp.staker("sender1").bond_amount, info.bond_amount);
    assert_eq!(lp.staker("sender1").pending_reward, 500000);
}

#[test]
fn query_state_at_height_computes_rewards() {
    let mut lp = Lp::default();
    lp.bond(LP_LIQUIDITY_TOKEN, 0, "sender1", 100).unwrap();
    let at_50 = query_state(&lp.config, &lp.state, Some(50));
    assert_eq!(at_50.last_distributed, 50);
    assert_eq!(at_50.global_reward_index, Decimal::from_ratio(500000, 100));
    assert_eq!(query_state(&lp.config, &at_50, Some(50)), at_50);
}

#[test]
fn withdraw_then_nothing_pending() {
    let mut lp = Lp::default();
    lp.bond(LP_LIQUIDITY_TOKEN, 0, DEFAULT_SENDER, 100).unwrap();
    let response = lp.withdraw(100, DEFAULT_SENDER).unwrap();
    assert_eq!(response.messages, vec![transfer(LP_REWARD_TOKEN, DEFAULT_SENDER, 1000000)]);
    assert_eq!(response.attributes, vec![
        attr("action", "withdraw"),
        attr("owner", DEFAULT_SENDER),
        attr("amount", "1000000"),
    ]);
    let response = lp.withdraw(100, DEFAULT_SENDER).unwrap();
    assert_eq!(response.messages, vec![transfer(LP_REWARD_TOKEN, DEFAULT_SENDER, 0)]);
}

#[test]
fn stakers_never_earn_more_than_distributed() {
    let mut lp = Lp::default();
    lp.bond(LP_LIQUIDITY_TOKEN, 0, "sender1", 100).unwrap();
    lp.bond(LP_LIQUIDITY_TOKEN, 0, "sender2", 40).unwrap();
    let first = lp.staker_info(100, "sender1").pending_reward;
    let second = lp.staker_info(100, "sender2").pending_reward;
    assert_eq!(first, 714285);
    assert_eq!(second, 285714);
    assert!(first + second <= 1_000_000);
}

// Wallets may bond; a contract only when it is whitelisted.
#[test]
fn only_whitelisted_contracts_are_authorized() {
    let (config, _, _) = instantiate(
        "addr0000".to_string(),
        12345,
        InstantiateMsg {
            token: "reward0000".to_string(),
            pair: "pair".to_string(),
            lp_token: "lp_token".to_string(),
            whitelisted_contracts: vec!["contract1".to_string()],
            distribution_schedule: vec![(12345, 12445, 1000000)],
        },
    ).unwrap();
    assert!(config.is_authorized(&"wallet".to_string(), false));
    assert!(config.is_authorized(&"contract1".to_string(), true));
    assert!(!config.is_authorized(&"contract2".to_string(), true));
}

// The checked ratio is the rounded-down quotient, and nothing on a zero
// denominator or a quotient beyond 128 bits.
#[test]
fn checked_multiply_ratio_rounds_down_or_refuses() {
    assert_eq!(checked_multiply_ratio(10, 3, 4), Some(7));
    assert_eq!(checked_multiply_ratio(u128::MAX, 2, 1), None);
    assert_eq!(checked_multiply_ratio(u128::MAX, 2, 2), Some(u128::MAX));
    assert_eq!(checked_multiply_ratio(1, 1, 0), None);
}

// The checked payout of a schedule is the payout where it fits.
#[test]
fn checked_schedule_amount_pays_half_way() {
    let schedule: Vec<ScheduleEntry> = vec![(0, 100, 1_000_000), (100, 200, 10_000_000)];
    assert_eq!(checked_schedule_distributed_amount(&schedule, 0, 50), Some(500_000));
    assert_eq!(checked_schedule_distributed_amount(&schedule, 50, 150), Some(5_500_000));
    let huge: Vec<ScheduleEntry> = vec![(0, 1, u128::MAX)];
    assert_eq!(checked_schedule_distributed_amount(&huge, 0, 1), None);
}

// Bonding is within bounds for ordinary amounts and not once the total
// bonded amount would overflow.
#[test]
fn bond_fits_until_the_total_overflows() {
    let lp = Lp::default();
    let info = StakerInfo::default("addr0000".to_string());
    assert!(bond_fits(&lp.config, &lp.state, &info, 12345, 100));
    let mut state = lp.state;
    state.total_bond_amount = u128::MAX;
    assert!(!bond_fits(&lp.config, &state, &info, 12345, 1));
}
