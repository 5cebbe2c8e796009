//! The operations, on the records themselves.
//!
//! Each operation does what its outcome in the model says: the contracts
//! here tie the records after the call, and the report, to that outcome.

use vstd::prelude::*;
use crate::accrual::{calculate_ci, calculate_reward, ONE};
use crate::coin::{query_balance, BankSend, Coin};
use crate::error::{ContractError, StdError};
use crate::model::{
    change_admin_outcome, change_apr_outcome, change_injex_token_outcome, claim_outcome,
    claimable, execute_outcome, index_at, instantiate_outcome, query_outcome, settled,
    stake_outcome, topped_up, unstake_outcome, Outcome,
};
use crate::msg::{
    address_view, Env, ExecuteMsg, InstantiateMsg, MessageInfo, QueryMsg, QueryResponse,
    QueryResponseView, Response, ResponseView,
};
use crate::state::{ledger_of, Config, StakerInfo, StakerInfoView, State, Storage, StorageView};
use crate::timestamp::Timestamp;
use crate::uint256::{outside_checked_add, outside_checked_sub, outside_narrow, Uint256};

verus! {

/// Whether the call did what `expected` says: on success the records and the
/// report are those of the outcome, on refusal the reason is and the records
/// are untouched.
pub open spec fn applied(
    before: Storage,
    after: Storage,
    r: Result<Response, ContractError>,
    expected: Outcome,
) -> bool {
    match r {
        Ok(response) => expected == Ok::<_, ContractError>((after@, response@)),
        Err(e) => expected == Err::<(StorageView, ResponseView), _>(e) && after == before,
    }
}

/// The index at the time of the call, and that time.
pub fn get_new_ci(storage: &Storage, env: &Env) -> (r: Result<(Uint256, Timestamp), StdError>)
    ensures
        match r {
            Ok((ci, now)) => index_at(storage@.config, storage@.state, env@.block_time) == Ok::<
                nat,
                StdError,
            >(ci@) && now == env.block_time,
            Err(e) => index_at(storage@.config, storage@.state, env@.block_time) == Err::<
                nat,
                StdError,
            >(e),
        },
{
    let now = env.block_time;
    if storage.state.total_staked.is_zero() {
        return Ok((storage.state.ci_current, now));
    }
    let current: u64 = now.seconds();
    let last: u64 = storage.state.ci_time_current.seconds();
    if current < last {
        return Err(StdError::Overflow);
    }
    let elapsed: u64 = current - last;
    match calculate_ci(
        storage.state.ci_current,
        storage.config.apr,
        Uint256::from_u128(elapsed as u128),
    ) {
        Ok(ci) => Ok((ci, now)),
        Err(e) => Err(e),
    }
}

/// The ledger settled at the index `ci`.
pub fn settle(ledger: &StakerInfo, ci: Uint256) -> (r: Result<StakerInfo, StdError>)
    ensures
        match r {
            Ok(after) => settled(ledger@, ci@) == Ok::<_, StdError>(after@),
            Err(e) => settled(ledger@, ci@) == Err::<StakerInfoView, _>(e),
        },
{
    let earned = match calculate_reward(ledger.staked, ci, ledger.ci_0) {
        Ok(v) => v,
        Err(e) => { return Err(e); },
    };
    match outside_checked_add(&ledger.reward, &earned) {
        Some(reward) => Ok(
            StakerInfo { staked: ledger.staked, block_time: ledger.block_time, ci_0: ci, reward },
        ),
        None => Err(StdError::Overflow),
    }
}

/// The ledger after `amount` has been added to the stake at the index `ci`.
pub fn top_up(ledger: &StakerInfo, ci: Uint256, amount: Uint256) -> (r: Result<
    StakerInfo,
    StdError,
>)
    ensures
        match r {
            Ok(after) => topped_up(ledger@, ci@, amount@) == Ok::<_, StdError>(after@),
            Err(e) => topped_up(ledger@, ci@, amount@) == Err::<StakerInfoView, _>(
                e,
            ),
        },
{
    if ledger.staked.is_zero() {
        return Ok(
            StakerInfo {
                staked: amount,
                block_time: ledger.block_time,
                ci_0: ci,
                reward: ledger.reward,
            },
        );
    }
    let ledger = match settle(ledger, ci) {
        Ok(v) => v,
        Err(e) => { return Err(e); },
    };
    match outside_checked_add(&ledger.staked, &amount) {
        Some(staked) => Ok(
            StakerInfo {
                staked,
                block_time: ledger.block_time,
                ci_0: ledger.ci_0,
                reward: ledger.reward,
            },
        ),
        None => Err(StdError::Overflow),
    }
}

/// The ledger of `user`, or an empty one opened at `opened`.
fn ledger_or_empty(storage: &Storage, user: &String, opened: Timestamp) -> (r: StakerInfo)
    ensures
        r@ == crate::model::ledger_or_empty(storage@, user@, opened@),
{
    match storage.ledger(user) {
        Some(ledger) => ledger,
        None => StakerInfo {
            staked: Uint256::zero(),
            block_time: opened,
            ci_0: Uint256::zero(),
            reward: Uint256::zero(),
        },
    }
}

/// Sets the contract up: the rate and the token as given, nothing staked,
/// the index at `ONE`.
pub fn instantiate(env: &Env, info: &MessageInfo, msg: InstantiateMsg) -> (r: Result<
    (Storage, Response),
    ContractError,
>)
    ensures
        match r {
            Ok((storage, response)) => instantiate_outcome(env@, info@, msg@) == Ok::<
                _,
                ContractError,
            >((storage@, response@)),
            Err(e) => instantiate_outcome(env@, info@, msg@) == Err::<
                (StorageView, ResponseView),
                _,
            >(e),
        },
{
    let admin = match msg.admin {
        Some(admin) => admin,
        None => { return Err(ContractError::Std(StdError::InvalidAddress)); },
    };
    let storage = Storage {
        config: Config { apr: msg.apr, injex_token: msg.injex_token },
        state: State {
            total_staked: Uint256::zero(),
            total_withdrawn: Uint256::zero(),
            ci_current: Uint256::from_u128(ONE),
            ci_time_current: env.block_time,
        },
        admin,
        user_stakings: Vec::new(),
    };
    assert(storage@.user_stakings =~= Seq::empty());
    Ok((storage, Response::Instantiate { owner: info.sender.clone(), apr: msg.apr }))
}

/// Adds the one coin sent along to the sender's stake.
pub fn stake(storage: &mut Storage, env: &Env, info: &MessageInfo) -> (r: Result<
    Response,
    ContractError,
>)
    ensures
        applied(*old(storage), *final(storage), r, stake_outcome(old(storage)@, env@, info@)),
{
    if info.funds.len() != 1 {
        return Err(ContractError::InvalidFunds);
    }
    let coin = &info.funds[0];
    assert(info@.funds[0] == coin@);
    if !(coin.denom == storage.config.injex_token) {
        return Err(ContractError::InvalidCoin);
    }
    let amount = Uint256::from_u128(coin.amount);
    let (new_ci, now) = match get_new_ci(storage, env) {
        Ok(v) => v,
        Err(e) => { return Err(ContractError::Std(e)); },
    };
    let prior = ledger_or_empty(storage, &info.sender, now);
    let ledger = match top_up(&prior, new_ci, amount) {
        Ok(v) => v,
        Err(e) => { return Err(ContractError::Std(e)); },
    };
    let total_staked = match outside_checked_add(&storage.state.total_staked, &amount) {
        Some(v) => v,
        None => { return Err(ContractError::Std(StdError::Overflow)); },
    };
    storage.set_ledger(&info.sender, ledger);
    storage.state = State {
        total_staked,
        total_withdrawn: storage.state.total_withdrawn,
        ci_current: new_ci,
        ci_time_current: now,
    };
    Ok(Response::Stake { user: info.sender.clone(), amount })
}

/// Takes `amount` out of the sender's stake and orders it paid back.
pub fn unstake(storage: &mut Storage, env: &Env, info: &MessageInfo, amount: Uint256) -> (r:
    Result<Response, ContractError>)
    ensures
        applied(
            *old(storage),
            *final(storage),
            r,
            unstake_outcome(old(storage)@, env@, info@, amount@),
        ),
{
    let prior = ledger_or_empty(storage, &info.sender, Timestamp::from_nanos(0));
    if prior.staked.is_zero() {
        return Err(ContractError::CannotUnstake);
    } else if prior.staked.lt(&amount) {
        return Err(ContractError::CannotUnstakeAmount);
    }
    let (new_ci, now) = match get_new_ci(storage, env) {
        Ok(v) => v,
        Err(e) => { return Err(ContractError::Std(e)); },
    };
    let ledger = match settle(&prior, new_ci) {
        Ok(v) => v,
        Err(e) => { return Err(ContractError::Std(e)); },
    };
    let staked = match outside_checked_sub(&ledger.staked, &amount) {
        Some(v) => v,
        None => { return Err(ContractError::Std(StdError::Overflow)); },
    };
    let total_staked = match outside_checked_sub(&storage.state.total_staked, &amount) {
        Some(v) => v,
        None => { return Err(ContractError::Std(StdError::Overflow)); },
    };
    let paid = match outside_narrow(&amount) {
        Some(v) => v,
        None => { return Err(ContractError::Std(StdError::ConversionOverflow)); },
    };
    storage.set_ledger(
        &info.sender,
        StakerInfo {
            staked,
            block_time: ledger.block_time,
            ci_0: ledger.ci_0,
            reward: ledger.reward,
        },
    );
    storage.state = State {
        total_staked,
        total_withdrawn: storage.state.total_withdrawn,
        ci_current: new_ci,
        ci_time_current: now,
    };
    Ok(
        Response::Unstake {
            payment: BankSend {
                to_address: info.sender.clone(),
                amount: Coin { denom: storage.config.injex_token.clone(), amount: paid },
            },
        },
    )
}

/// Orders the sender's reward, settled to now, paid out.
pub fn claim_rewards(storage: &mut Storage, env: &Env, info: &MessageInfo) -> (r: Result<
    Response,
    ContractError,
>)
    ensures
        applied(*old(storage), *final(storage), r, claim_outcome(old(storage)@, env@, info@)),
{
    let (new_ci, now) = match get_new_ci(storage, env) {
        Ok(v) => v,
        Err(e) => { return Err(ContractError::Std(e)); },
    };
    let prior = ledger_or_empty(storage, &info.sender, Timestamp::from_nanos(0));
    let ledger = match settle(&prior, new_ci) {
        Ok(v) => v,
        Err(e) => { return Err(ContractError::Std(e)); },
    };
    let reward = ledger.reward;
    if reward.is_zero() {
        return Err(ContractError::CannotClaim);
    }
    let reserved = match outside_checked_add(&reward, &storage.state.total_staked) {
        Some(v) => v,
        None => { return Err(ContractError::Std(StdError::Overflow)); },
    };
    let balance: u128 = query_balance(&env.contract_funds, &storage.config.injex_token);
    if Uint256::from_u128(balance).lt(&reserved) {
        return Err(ContractError::InsufficientContractBalance);
    }
    let total_withdrawn = match outside_checked_add(&storage.state.total_withdrawn, &reward) {
        Some(v) => v,
        None => { return Err(ContractError::Std(StdError::Overflow)); },
    };
    let paid = match outside_narrow(&reward) {
        Some(v) => v,
        None => { return Err(ContractError::Std(StdError::ConversionOverflow)); },
    };
    storage.set_ledger(
        &info.sender,
        StakerInfo {
            staked: ledger.staked,
            block_time: ledger.block_time,
            ci_0: ledger.ci_0,
            reward: Uint256::zero(),
        },
    );
    storage.state = State {
        total_staked: storage.state.total_staked,
        total_withdrawn,
        ci_current: new_ci,
        ci_time_current: now,
    };
    Ok(
        Response::Claim {
            payment: BankSend {
                to_address: info.sender.clone(),
                amount: Coin { denom: storage.config.injex_token.clone(), amount: paid },
            },
        },
    )
}

/// Sets a new rate, after the index has been brought up to date at the old
/// one.
pub fn change_apr(storage: &mut Storage, env: &Env, info: &MessageInfo, new_apr: Uint256) -> (r:
    Result<Response, ContractError>)
    ensures
        applied(
            *old(storage),
            *final(storage),
            r,
            change_apr_outcome(old(storage)@, env@, info@, new_apr@),
        ),
{
    if !(storage.admin == info.sender) {
        return Err(ContractError::OnlyAdmin);
    }
    if new_apr.is_zero() {
        return Err(ContractError::InvalidApr);
    }
    let (new_ci, now) = match get_new_ci(storage, env) {
        Ok(v) => v,
        Err(e) => { return Err(ContractError::Std(e)); },
    };
    storage.state = State {
        total_staked: storage.state.total_staked,
        total_withdrawn: storage.state.total_withdrawn,
        ci_current: new_ci,
        ci_time_current: now,
    };
    storage.config.apr = new_apr;
    Ok(Response::ChangeApr { new_apr })
}

/// Sets a new token.
pub fn change_injex_token(storage: &mut Storage, info: &MessageInfo, new_injex_token: String)
    -> (r: Result<Response, ContractError>)
    ensures
        applied(
            *old(storage),
            *final(storage),
            r,
            change_injex_token_outcome(old(storage)@, info@, new_injex_token@),
        ),
{
    if !(storage.admin == info.sender) {
        return Err(ContractError::OnlyAdmin);
    }
    storage.config.injex_token = new_injex_token;
    Ok(Response::ChangeInjexToken)
}

/// Sets a new admin: the address that the host's validator returned, `None`
/// where it refused the address.
pub fn change_admin(storage: &mut Storage, info: &MessageInfo, new_admin: Option<String>) -> (r:
    Result<Response, ContractError>)
    ensures
        applied(
            *old(storage),
            *final(storage),
            r,
            change_admin_outcome(old(storage)@, info@, address_view(new_admin)),
        ),
{
    if !(storage.admin == info.sender) {
        return Err(ContractError::OnlyAdmin);
    }
    match new_admin {
        Some(admin) => {
            storage.admin = admin;
            Ok(Response::ChangeAdmin)
        },
        None => Err(ContractError::Std(StdError::InvalidAddress)),
    }
}

/// Carries out the operation that `msg` names.
pub fn execute(storage: &mut Storage, env: &Env, info: &MessageInfo, msg: ExecuteMsg) -> (r:
    Result<Response, ContractError>)
    ensures
        applied(
            *old(storage),
            *final(storage),
            r,
            execute_outcome(old(storage)@, env@, info@, msg@),
        ),
{
    match msg {
        ExecuteMsg::Stake => stake(storage, env, info),
        ExecuteMsg::Claim => claim_rewards(storage, env, info),
        ExecuteMsg::Unstake { amount } => unstake(storage, env, info, amount),
        ExecuteMsg::ChangeApr { new_apr } => change_apr(storage, env, info, new_apr),
        ExecuteMsg::ChangeAdmin { address } => change_admin(storage, info, address),
        ExecuteMsg::ChangeInjexToken { new_injex_token } => change_injex_token(
            storage,
            info,
            new_injex_token,
        ),
    }
}

/// The totals and the index.
pub fn query_state(storage: &Storage) -> (r: Result<State, StdError>)
    ensures
        r == Ok::<State, StdError>(storage.state),
{
    Ok(storage.state)
}

/// The principal that all users hold staked.
pub fn query_total_staked(storage: &Storage) -> (r: Result<Uint256, StdError>)
    ensures
        r == Ok::<Uint256, StdError>(storage.state.total_staked),
{
    Ok(storage.state.total_staked)
}

/// The rewards paid out so far.
pub fn query_total_withdrawn(storage: &Storage) -> (r: Result<Uint256, StdError>)
    ensures
        r == Ok::<Uint256, StdError>(storage.state.total_withdrawn),
{
    Ok(storage.state.total_withdrawn)
}

/// The denomination that is staked and paid out.
pub fn query_injex_token(storage: &Storage) -> (r: Result<String, StdError>)
    ensures
        r == Ok::<String, StdError>(storage.config.injex_token),
{
    Ok(storage.config.injex_token.clone())
}

/// The annual rate.
pub fn query_apr(storage: &Storage) -> (r: Result<Uint256, StdError>)
    ensures
        r == Ok::<Uint256, StdError>(storage.config.apr),
{
    Ok(storage.config.apr)
}

/// The ledger of `user`; `NotFound` where none is kept.
pub fn query_staker_indo(storage: &Storage, user: &String) -> (r: Result<StakerInfo, StdError>)
    ensures
        match r {
            Ok(info) => ledger_of(storage@.user_stakings, user@) == Some(info@),
            Err(e) => ledger_of(storage@.user_stakings, user@) is None && e == StdError::NotFound,
        },
{
    match storage.ledger(user) {
        Some(info) => Ok(info),
        None => Err(StdError::NotFound),
    }
}

/// What `user` could claim at the time of the call. Nothing is changed.
pub fn query_claimable_tokens(storage: &Storage, env: &Env, user: &String) -> (r: Result<
    Uint256,
    StdError,
>)
    ensures
        crate::accrual::outcome(r) == claimable(storage@, env@.block_time, user@),
{
    let info = match storage.ledger(user) {
        Some(info) => info,
        None => { return Err(StdError::NotFound); },
    };
    let (new_ci, _) = match get_new_ci(storage, env) {
        Ok(v) => v,
        Err(e) => { return Err(e); },
    };
    match settle(&info, new_ci) {
        Ok(ledger) => Ok(ledger.reward),
        Err(e) => Err(e),
    }
}

/// Answers the request that `msg` names. Nothing is changed.
pub fn query(storage: &Storage, env: &Env, msg: QueryMsg) -> (r: Result<QueryResponse, StdError>)
    ensures
        match r {
            Ok(answer) => query_outcome(storage@, env@, msg@) == Ok::<_, StdError>(answer@),
            Err(e) => query_outcome(storage@, env@, msg@) == Err::<QueryResponseView, _>(e),
        },
{
    match msg {
        QueryMsg::GetState => match query_state(storage) {
            Ok(v) => Ok(QueryResponse::State(v)),
            Err(e) => Err(e),
        },
        QueryMsg::GetApr => match query_apr(storage) {
            Ok(v) => Ok(QueryResponse::Apr(v)),
            Err(e) => Err(e),
        },
        QueryMsg::GetInjexToken => match query_injex_token(storage) {
            Ok(v) => Ok(QueryResponse::InjexToken(v)),
            Err(e) => Err(e),
        },
        QueryMsg::GetTotalStaked => match query_total_staked(storage) {
            Ok(v) => Ok(QueryResponse::TotalStaked(v)),
            Err(e) => Err(e),
        },
        QueryMsg::GetTotalWithdrawn => match query_total_withdrawn(storage) {
            Ok(v) => Ok(QueryResponse::TotalWithdrawn(v)),
            Err(e) => Err(e),
        },
        QueryMsg::GetStakerInfo { user } => match query_staker_indo(storage, &user) {
            Ok(v) => Ok(QueryResponse::StakerInfo(v)),
            Err(e) => Err(e),
        },
        QueryMsg::GetClaimableAmount { user } => match query_claimable_tokens(
            storage,
            env,
            &user,
        ) {
            Ok(v) => Ok(QueryResponse::ClaimableAmount(v)),
            Err(e) => Err(e),
        },
    }
}

} // verus!
