use cosmwasm_std::testing::mock_env;
use injex_staking::accrual::{ONE as ONE_UNITS, PERCENTS as PERCENTS_UNITS};
use injex_staking::coin::Coin;
use injex_staking::contract::{execute, instantiate, query};
use injex_staking::error::ContractError;
use injex_staking::msg::{
    Env, ExecuteMsg, InstantiateMsg, MessageInfo, QueryMsg, QueryResponse, Response,
};
use injex_staking::state::{StakerInfo, State, Storage};
use injex_staking::timestamp::Timestamp;
use injex_staking::uint256::Uint256;

type Wide = cosmwasm_std::Uint256;

const USER: &str = "inj1user0000000000000000000000000000000000";
const CONTRACT: &str = "inj1contract000000000000000000000000000000";
const INJEX_TOKEN: &str = "factory/inj1issuer/injex";
const USDT: &str = "peggy0xdAC17F958D2ee523a2206206994597C13D831ec7";

const ONE: Wide = Wide::from_u128(ONE_UNITS);
const PERCENTS: Wide = Wide::from_u128(PERCENTS_UNITS);
const APR: Wide = Wide::from_u128(2_000_u128);
const SECONDS_IN_YEAR: Wide = Wide::from_u128(31_536_000_u128);

fn wide(value: Uint256) -> Wide {
    Wide::from_be_bytes(value.to_be_bytes())
}

fn narrow(value: Wide) -> Uint256 {
    Uint256::from_be_bytes(value.to_be_bytes())
}

fn calculate_ci(curr_ci: Wide, apr: Wide, time_elapsed: Wide) -> Wide {
    let new_ci =
        (curr_ci * (ONE + (apr * time_elapsed * ONE) / (SECONDS_IN_YEAR * PERCENTS))) / ONE;

    new_ci
}

fn calculate_reward(tokens_staked: Wide, ci_last: Wide, ci_0: Wide) -> Wide {
    let reward = (tokens_staked * (ci_last - ci_0)) / ONE;

    reward
}

/// The host of the tests: the records, the clock, and a bank that moves the
/// funds as the chain would.
struct App {
    storage: Storage,
    time: Timestamp,
    balances: Vec<(String, Coin)>,
}

impl App {
    fn balance(&self, owner: &str, denom: &str) -> u128 {
        self.balances
            .iter()
            .find(|(o, c)| o == owner && c.denom == denom)
            .map(|(_, c)| c.amount)
            .unwrap_or(0)
    }

    fn set_balance(&mut self, owner: &str, denom: &str, amount: u128) {
        self.balances.retain(|(o, c)| !(o == owner && c.denom == denom));
        self.balances.push((owner.to_string(), Coin { denom: denom.to_string(), amount }));
    }

    fn transfer(&mut self, from: &str, to: &str, coin: &Coin) -> bool {
        let held = self.balance(from, &coin.denom);
        if held < coin.amount {
            return false;
        }
        self.set_balance(from, &coin.denom, held - coin.amount);
        let had = self.balance(to, &coin.denom);
        self.set_balance(to, &coin.denom, had + coin.amount);
        true
    }

    fn env(&self) -> Env {
        Env {
            block_time: self.time,
            contract_funds: self
                .balances
                .iter()
                .filter(|(o, _)| o == CONTRACT)
                .map(|(_, c)| c.clone())
                .collect(),
        }
    }

    fn plus_seconds(&mut self, seconds: u64) {
        self.time = self.time.plus_seconds(seconds);
    }

    fn execute_contract(
        &mut self,
        sender: &str,
        msg: &ExecuteMsg,
        funds: &[Coin],
    ) -> Result<Response, ContractError> {
        let before = self.balances.clone();
        for coin in funds {
            assert!(self.transfer(sender, CONTRACT, coin));
        }
        let info = MessageInfo { sender: sender.to_string(), funds: funds.to_vec() };
        let env = self.env();
        let res = execute(&mut self.storage, &env, &info, msg.clone());
        match &res {
            Ok(Response::Unstake { payment }) | Ok(Response::Claim { payment }) => {
                assert!(self.transfer(CONTRACT, &payment.to_address, &payment.amount));
            }
            Ok(_) => {}
            Err(_) => self.balances = before,
        }
        res
    }

    fn query_state(&self) -> State {
        match query(&self.storage, &self.env(), QueryMsg::GetState {}) {
            Ok(QueryResponse::State(state)) => state,
            other => panic!("{:?}", other),
        }
    }

    fn query_apr(&self) -> Wide {
        match query(&self.storage, &self.env(), QueryMsg::GetApr {}) {
            Ok(QueryResponse::Apr(apr)) => wide(apr),
            other => panic!("{:?}", other),
        }
    }

    fn query_injex_token(&self) -> String {
        match query(&self.storage, &self.env(), QueryMsg::GetInjexToken {}) {
            Ok(QueryResponse::InjexToken(token)) => token,
            other => panic!("{:?}", other),
        }
    }

    fn query_staker_info(&self, user: &str) -> StakerInfo {
        let msg = QueryMsg::GetStakerInfo { user: user.to_string() };
        match query(&self.storage, &self.env(), msg) {
            Ok(QueryResponse::StakerInfo(info)) => info,
            other => panic!("{:?}", other),
        }
    }
}

fn block_time() -> Timestamp {
    Timestamp::from_nanos(mock_env().block.time.nanos())
}

fn proper_instantiate(with_contract_balance: bool) -> App {
    let env = Env { block_time: block_time(), contract_funds: vec![] };
    let info = MessageInfo { sender: USER.to_string(), funds: vec![] };
    let msg = InstantiateMsg {
        apr: narrow(APR),
        injex_token: INJEX_TOKEN.to_string(),
        admin: Some(USER.to_string()),
    };
    let (storage, _) = instantiate(&env, &info, msg).unwrap();
    let mut app = App { storage, time: block_time(), balances: vec![] };
    app.set_balance(USER, INJEX_TOKEN, 1_000 * ONE_UNITS);
    app.set_balance(USER, USDT, 1_000 * ONE_UNITS);
    if with_contract_balance {
        app.set_balance(CONTRACT, INJEX_TOKEN, 1_000 * ONE_UNITS);
    }
    app
}

fn expect_error(res: Result<Response, ContractError>, message: String) {
    match res {
        Ok(_) => panic!("expected the error: {}", message),
        Err(e) => assert_eq!(e.message(), message),
    }
}

fn stake_internal(app: &mut App, stake_amount: Wide, check: bool) -> (StakerInfo, State) {
    let msg = ExecuteMsg::Stake {};

    let res = app.execute_contract(
        USER,
        &msg,
        &vec![Coin {
            denom: INJEX_TOKEN.to_string(),
            amount: cosmwasm_std::Uint128::try_from(stake_amount).unwrap().u128(),
        }],
    );

    assert!(res.is_ok());

    let user_staking: StakerInfo = app.query_staker_info(USER);
    let state: State = app.query_state();

    if check {
        let block_time = block_time();

        let state_before: State = app.query_state();

        assert_eq!(state.ci_current, state_before.ci_current);
        assert_eq!(state.ci_time_current, block_time);
        assert_eq!(wide(state.total_staked), stake_amount);

        assert_eq!(user_staking.block_time, block_time);
        assert_eq!(user_staking.ci_0, state.ci_current);
        assert_eq!(wide(user_staking.staked), stake_amount);
        assert_eq!(wide(user_staking.reward), Wide::zero());
    }

    (user_staking, state)
}

#[test]
fn proper_initialization() {
    let app = proper_instantiate(true);

    let injex_token = app.query_injex_token();
    let apr = app.query_apr();

    assert_eq!(INJEX_TOKEN, injex_token.to_string());
    assert_eq!(APR, apr);
}

#[test]
fn stake_no_funds() {
    let mut app = proper_instantiate(true);

    let msg = ExecuteMsg::Stake {};

    let res = app.execute_contract(USER, &msg, &[]);

    assert!(res.is_err());

    let error_message = format!("Invalid funds were provided");
    expect_error(res, error_message);
}

#[test]
fn stake_invalid_token() {
    let mut app = proper_instantiate(true);

    let msg = ExecuteMsg::Stake {};

    let res = app.execute_contract(
        USER,
        &msg,
        &vec![Coin { denom: USDT.to_string(), amount: 1_000_000 }],
    );

    assert!(res.is_err());

    let error_message = format!("Invalid coin passed in funds");
    expect_error(res, error_message);
}

#[test]
fn stake_two_tokens() {
    let mut app = proper_instantiate(true);

    let msg = ExecuteMsg::Stake {};

    let res = app.execute_contract(
        USER,
        &msg,
        &vec![
            Coin { denom: USDT.to_string(), amount: 1_000_000 },
            Coin { denom: USDT.to_string(), amount: 1_000_000 },
        ],
    );

    assert!(res.is_err());

    let error_message = format!("Invalid funds were provided");
    expect_error(res, error_message);
}

#[test]
fn stake() {
    let mut app = proper_instantiate(true);

    let stake_amount = Wide::from_u128(1_000_000_u128);

    let balance = app.balance(USER, INJEX_TOKEN);

    let state_before: State = app.query_state();
    assert_eq!(wide(state_before.ci_current), ONE);
    assert_eq!(wide(state_before.total_staked), Wide::zero());

    stake_internal(&mut app, stake_amount, true);

    let balance_after = app.balance(USER, INJEX_TOKEN);

    assert_eq!(Wide::from_u128(balance_after), Wide::from_u128(balance) - stake_amount);
}

#[test]
fn multiple_stake() {
    let mut app = proper_instantiate(true);

    let stake_amount = ONE;
    let block_time = block_time();

    let state_before: State = app.query_state();
    let apr: Wide = app.query_apr();
    assert_eq!(wide(state_before.ci_current), ONE);
    assert_eq!(wide(state_before.total_staked), Wide::zero());
    let balance = app.balance(USER, INJEX_TOKEN);

    let (user_staking, state) = stake_internal(&mut app, stake_amount, true);

    app.plus_seconds(200);

    let new_block_time: Timestamp = app.time;

    let (new_user_staking, new_state) = stake_internal(&mut app, stake_amount, false);

    let new_ci = calculate_ci(
        wide(state.ci_current),
        apr,
        (new_block_time.seconds() - block_time.seconds()).into(),
    );
    let reward =
        calculate_reward(stake_amount, wide(new_state.ci_current), wide(user_staking.ci_0));

    assert_eq!(wide(new_state.ci_current), new_ci);
    assert_eq!(new_state.ci_time_current, new_block_time);
    assert_eq!(wide(new_state.total_staked), wide(state.total_staked) + stake_amount);

    assert_eq!(new_user_staking.block_time, block_time);
    assert_eq!(new_user_staking.ci_0, new_state.ci_current);
    assert_eq!(wide(new_user_staking.staked), wide(state.total_staked) + stake_amount);
    assert_eq!(wide(new_user_staking.reward), reward);

    let reward_calculated =
        (stake_amount * Wide::from_u128(200_u128) * apr) / (SECONDS_IN_YEAR * PERCENTS);

    assert_eq!(reward_calculated, wide(new_user_staking.reward));

    let balance_after = app.balance(USER, INJEX_TOKEN);

    assert_eq!(
        Wide::from_u128(balance_after),
        Wide::from_u128(balance) - (stake_amount + stake_amount)
    );
}

#[test]
fn unstake() {
    let mut app = proper_instantiate(true);

    let stake_amount = ONE + ONE;
    let block_time = block_time();

    let amount_to_unstake: Wide = stake_amount * Wide::from_u128(2_u128);

    let msg = ExecuteMsg::Unstake { amount: narrow(amount_to_unstake) };
    let res = app.execute_contract(USER, &msg, &[]);

    assert!(res.is_err());

    let error_message = format!("No tokens were staked");
    expect_error(res, error_message);

    let state_before: State = app.query_state();
    let apr: Wide = app.query_apr();
    assert_eq!(wide(state_before.ci_current), ONE);
    assert_eq!(wide(state_before.total_staked), Wide::zero());

    let (user_staking, state) = stake_internal(&mut app, stake_amount, true);
    let balance = app.balance(USER, INJEX_TOKEN);

    app.plus_seconds(200);

    let new_block_time: Timestamp = app.time;

    let res = app.execute_contract(USER, &msg, &[]);

    assert!(res.is_err());

    let error_message = format!("Insufficient balance");
    expect_error(res, error_message);

    let amount_to_unstake: Wide = stake_amount / Wide::from_u128(2_u128);
    let msg = ExecuteMsg::Unstake { amount: narrow(amount_to_unstake) };
    let res = app.execute_contract(USER, &msg, &[]);

    assert!(res.is_ok());

    let new_user_staking: StakerInfo = app.query_staker_info(USER);
    let new_state: State = app.query_state();

    let new_ci = calculate_ci(
        wide(state.ci_current),
        apr,
        (new_block_time.seconds() - block_time.seconds()).into(),
    );
    let reward =
        calculate_reward(stake_amount, wide(new_state.ci_current), wide(user_staking.ci_0));

    assert_eq!(wide(new_state.ci_current), new_ci);
    assert_eq!(new_state.ci_time_current, new_block_time);
    assert_eq!(wide(new_state.total_staked), wide(state.total_staked) - amount_to_unstake);

    assert_eq!(new_user_staking.block_time, block_time);
    assert_eq!(new_user_staking.ci_0, new_state.ci_current);
    assert_eq!(wide(new_user_staking.staked), wide(state.total_staked) - amount_to_unstake);
    assert_eq!(wide(new_user_staking.reward), reward);

    let balance_after = app.balance(USER, INJEX_TOKEN);

    assert_eq!(Wide::from_u128(balance_after), Wide::from_u128(balance) + amount_to_unstake);
}

#[test]
fn claim_without_contract_balance() {
    let mut app = proper_instantiate(false);

    let stake_amount = ONE;
    let block_time = block_time();
    let msg = ExecuteMsg::Claim {};

    let res = app.execute_contract(USER, &msg, &[]);

    assert!(res.is_err());

    let error_message = format!("No claims");
    expect_error(res, error_message);

    let state_before: State = app.query_state();
    let apr: Wide = app.query_apr();
    assert_eq!(wide(state_before.ci_current), ONE);
    assert_eq!(wide(state_before.total_staked), Wide::zero());

    let (user_staking, state) = stake_internal(&mut app, stake_amount, true);

    app.plus_seconds(200);

    let new_block_time: Timestamp = app.time;

    let (new_user_staking, new_state) = stake_internal(&mut app, stake_amount, false);

    let new_ci = calculate_ci(
        wide(state.ci_current),
        apr,
        (new_block_time.seconds() - block_time.seconds()).into(),
    );
    let reward =
        calculate_reward(stake_amount, wide(new_state.ci_current), wide(user_staking.ci_0));

    assert_eq!(wide(new_state.ci_current), new_ci);
    assert_eq!(new_state.ci_time_current, new_block_time);
    assert_eq!(wide(new_state.total_staked), stake_amount + stake_amount);

    assert_eq!(new_user_staking.block_time, block_time);
    assert_eq!(new_user_staking.ci_0, new_state.ci_current);
    assert_eq!(wide(new_user_staking.staked), stake_amount + stake_amount);
    assert_eq!(wide(new_user_staking.reward), reward);

    let reward_calculated =
        (stake_amount * Wide::from_u128(200_u128) * apr) / (SECONDS_IN_YEAR * PERCENTS);

    assert_eq!(reward_calculated, wide(new_user_staking.reward));

    app.plus_seconds(500);

    let balance = app.balance(CONTRACT, INJEX_TOKEN);

    println!("{}", balance);

    let res = app.execute_contract(USER, &msg, &[]);

    assert!(res.is_err());

    let error_message = format!("Insufficient contract balance");
    expect_error(res, error_message);
}

#[test]
fn claim_with_multiple_stakes() {
    let mut app = proper_instantiate(true);

    let stake_amount = ONE;
    let block_time = block_time();
    let msg = ExecuteMsg::Claim {};

    let res = app.execute_contract(USER, &msg, &[]);

    assert!(res.is_err());

    let error_message = format!("No claims");
    expect_error(res, error_message);

    let state_before: State = app.query_state();
    let apr: Wide = app.query_apr();
    assert_eq!(wide(state_before.ci_current), ONE);
    assert_eq!(wide(state_before.total_staked), Wide::zero());

    let (user_staking, state) = stake_internal(&mut app, stake_amount, true);

    app.plus_seconds(200);

    let new_block_time: Timestamp = app.time;

    let (new_user_staking, new_state) = stake_internal(&mut app, stake_amount, false);

    let new_ci = calculate_ci(
        wide(state.ci_current),
        apr,
        (new_block_time.seconds() - block_time.seconds()).into(),
    );
    let reward =
        calculate_reward(stake_amount, wide(new_state.ci_current), wide(user_staking.ci_0));

    assert_eq!(wide(new_state.ci_current), new_ci);
    assert_eq!(new_state.ci_time_current, new_block_time);
    assert_eq!(wide(new_state.total_staked), stake_amount + stake_amount);

    assert_eq!(new_user_staking.block_time, block_time);
    assert_eq!(new_user_staking.ci_0, new_state.ci_current);
    assert_eq!(wide(new_user_staking.staked), stake_amount + stake_amount);
    assert_eq!(wide(new_user_staking.reward), reward);

    let reward_calculated =
        (stake_amount * Wide::from_u128(200_u128) * apr) / (SECONDS_IN_YEAR * PERCENTS);

    assert_eq!(reward_calculated, wide(new_user_staking.reward));

    app.plus_seconds(500);

    let new_block_time_claim: Timestamp = app.time;

    let balance = app.balance(USER, INJEX_TOKEN);
    let res = app.execute_contract(USER, &msg, &[]);

    assert!(res.is_ok());

    let new_user_staking_after_claim: StakerInfo = app.query_staker_info(USER);
    let new_state_after_claim: State = app.query_state();

    let new_ci_claim = calculate_ci(
        wide(new_state.ci_current),
        apr,
        (new_block_time_claim.seconds() - new_block_time.seconds()).into(),
    );
    let reward_claim = calculate_reward(
        stake_amount + stake_amount,
        wide(new_state_after_claim.ci_current),
        wide(new_user_staking.ci_0),
    );

    assert_eq!(wide(new_state_after_claim.ci_current), new_ci_claim);
    assert_eq!(new_state_after_claim.ci_time_current, new_block_time_claim);
    assert_eq!(wide(new_state_after_claim.total_withdrawn), reward_claim + reward);

    assert_eq!(new_user_staking_after_claim.block_time, block_time);
    assert_eq!(new_user_staking_after_claim.ci_0, new_state_after_claim.ci_current);
    assert_eq!(new_user_staking_after_claim.staked, new_state_after_claim.total_staked);
    assert_eq!(wide(new_user_staking_after_claim.reward), Wide::zero());

    let balance_after = app.balance(USER, INJEX_TOKEN);

    assert_eq!(
        Wide::from_u128(balance_after),
        Wide::from_u128(balance) + reward + reward_claim
    );
}

#[test]
fn multiple_stake_with_apr_change() {
    let mut app = proper_instantiate(true);

    let stake_amount = ONE;
    let block_time = block_time();

    let state_before: State = app.query_state();
    let apr: Wide = app.query_apr();
    assert_eq!(wide(state_before.ci_current), ONE);
    assert_eq!(wide(state_before.total_staked), Wide::zero());
    let balance = app.balance(USER, INJEX_TOKEN);

    let (user_staking, state) = stake_internal(&mut app, stake_amount, true);

    app.plus_seconds(200);

    let new_block_time: Timestamp = app.time;

    let (new_user_staking, new_state) = stake_internal(&mut app, stake_amount, false);

    let new_ci = calculate_ci(
        wide(state.ci_current),
        apr,
        (new_block_time.seconds() - block_time.seconds()).into(),
    );
    let reward =
        calculate_reward(stake_amount, wide(new_state.ci_current), wide(user_staking.ci_0));

    assert_eq!(wide(new_state.ci_current), new_ci);
    assert_eq!(new_state.ci_time_current, new_block_time);
    assert_eq!(wide(new_state.total_staked), wide(state.total_staked) + stake_amount);

    assert_eq!(new_user_staking.block_time, block_time);
    assert_eq!(new_user_staking.ci_0, new_state.ci_current);
    assert_eq!(wide(new_user_staking.staked), wide(state.total_staked) + stake_amount);
    assert_eq!(wide(new_user_staking.reward), reward);

    let reward_calculated =
        (stake_amount * Wide::from_u128(200_u128) * apr) / (SECONDS_IN_YEAR * PERCENTS);

    assert_eq!(reward_calculated, wide(new_user_staking.reward));

    let balance_after = app.balance(USER, INJEX_TOKEN);

    assert_eq!(
        Wide::from_u128(balance_after),
        Wide::from_u128(balance) - (stake_amount + stake_amount)
    );

    app.plus_seconds(500);

    let new_block_time_claim: Timestamp = app.time;

    let fake_user = "inj12vpajtjf5cvmk2w737m0t8qwwkyjz0xgvxwyus";
    let change_apr_msg = ExecuteMsg::ChangeApr { new_apr: narrow(Wide::zero()) };
    let res = app.execute_contract(fake_user, &change_apr_msg, &[]);

    assert!(res.is_err());

    let error_message = format!("Only admin");
    expect_error(res, error_message);

    let res = app.execute_contract(USER, &change_apr_msg, &[]);

    assert!(res.is_err());

    let error_message = format!("Invalid APR");
    expect_error(res, error_message);

    let change_apr_msg = ExecuteMsg::ChangeApr { new_apr: narrow(Wide::from_u128(4000_u128)) };
    let res = app.execute_contract(USER, &change_apr_msg, &[]);

    assert!(res.is_ok());

    let new_state_after_apr_change: State = app.query_state();

    let new_ci_apr_change = calculate_ci(
        wide(new_state.ci_current),
        apr,
        (new_block_time_claim.seconds() - new_block_time.seconds()).into(),
    );

    assert_eq!(wide(new_state_after_apr_change.ci_current), new_ci_apr_change);
    assert_eq!(new_state_after_apr_change.ci_time_current, new_block_time_claim);
    assert_eq!(wide(new_state_after_apr_change.total_withdrawn), Wide::zero());

    app.plus_seconds(500);

    let new_block_time_apr: Timestamp = app.time;

    let (new_user_staking_after, new_state) = stake_internal(&mut app, stake_amount, false);

    let new_ci = calculate_ci(
        wide(new_state_after_apr_change.ci_current),
        Wide::from_u128(4000_u128),
        (new_block_time_apr.seconds() - new_block_time_claim.seconds()).into(),
    );
    let reward_apr_change = calculate_reward(
        stake_amount + stake_amount,
        wide(new_state.ci_current),
        wide(new_user_staking.ci_0),
    );

    assert_eq!(wide(new_state.ci_current), new_ci);
    assert_eq!(new_state.ci_time_current, new_block_time_apr);
    assert_eq!(wide(new_state.total_staked), stake_amount + stake_amount + stake_amount);

    assert_eq!(new_user_staking_after.block_time, block_time);
    assert_eq!(new_user_staking_after.ci_0, new_state.ci_current);
    assert_eq!(wide(new_user_staking_after.reward), reward + reward_apr_change);
}

#[test]
fn change_injex_token() {
    let mut app = proper_instantiate(true);

    let new_token = "asdasd".to_string();

    let fake_user = "inj12vpajtjf5cvmk2w737m0t8qwwkyjz0xgvxwyus";
    let change_token = ExecuteMsg::ChangeInjexToken { new_injex_token: "asdasd".to_string() };
    let res = app.execute_contract(fake_user, &change_token, &[]);

    assert!(res.is_err());

    let error_message = format!("Only admin");
    expect_error(res, error_message);

    let change_token = ExecuteMsg::ChangeInjexToken { new_injex_token: new_token.clone() };
    let res = app.execute_contract(USER, &change_token, &[]);

    assert!(res.is_ok());

    let token: String = app.query_injex_token();

    assert_eq!(token, new_token.clone());
}
