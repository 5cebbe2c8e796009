//! The contract as a state machine over numbers.
//!
//! Every operation is a function from the records before the call, what the
//! host answered and what the caller sent, to the records after the call and
//! the report, or to the reason for refusing. A refused operation leaves the
//! records as they were.

use vstd::prelude::*;
use crate::accrual::{index_after, reward_after};
use crate::coin::{balance_of, BankSendView, CoinView};
use crate::error::{ContractError, StdError};
use crate::msg::{
    EnvView, ExecuteMsgView, InstantiateMsgView, MessageInfoView, QueryMsgView, QueryResponseView,
    ResponseView,
};
use crate::state::{
    ledger_of, with_ledger, ConfigView, StakerInfoView, StateView, StorageView,
};
use crate::timestamp::whole_seconds;
use crate::uint256::limit;

verus! {

/// What an operation comes to.
pub type Outcome = Result<(StorageView, ResponseView), ContractError>;

/// The index at the time `now`. While nothing is staked the index stands
/// still; otherwise it is advanced by the whole seconds since it was last
/// brought up to date, which fails where the clock has gone back.
pub open spec fn index_at(config: ConfigView, state: StateView, now: nat) -> Result<
    nat,
    StdError,
> {
    if state.total_staked == 0 {
        Ok(state.ci_current)
    } else if whole_seconds(now) < whole_seconds(state.ci_time_current) {
        Err(StdError::Overflow)
    } else {
        index_after(
            state.ci_current,
            config.apr,
            (whole_seconds(now) - whole_seconds(state.ci_time_current)) as nat,
        )
    }
}

/// A ledger with nothing in it, opened at `opened`.
pub open spec fn empty_ledger(opened: nat) -> StakerInfoView {
    StakerInfoView { staked: 0, block_time: opened, ci_0: 0, reward: 0 }
}

/// The ledger of `user`, or an empty one opened at `opened`.
pub open spec fn ledger_or_empty(storage: StorageView, user: Seq<char>, opened: nat)
    -> StakerInfoView {
    match ledger_of(storage.user_stakings, user) {
        Some(ledger) => ledger,
        None => empty_ledger(opened),
    }
}

/// The ledger settled at the index `ci`: what the stake has earned since the
/// checkpoint is added to the reward, and the checkpoint moves to `ci`.
pub open spec fn settled(ledger: StakerInfoView, ci: nat) -> Result<StakerInfoView, StdError> {
    match reward_after(ledger.staked, ci, ledger.ci_0) {
        Err(e) => Err(e),
        Ok(earned) => if ledger.reward + earned < limit() {
            Ok(StakerInfoView { reward: ledger.reward + earned, ci_0: ci, ..ledger })
        } else {
            Err(StdError::Overflow)
        },
    }
}

/// The ledger after `amount` has been added to the stake at the index `ci`. A
/// ledger without a stake is not settled: its checkpoint just moves.
pub open spec fn topped_up(ledger: StakerInfoView, ci: nat, amount: nat) -> Result<
    StakerInfoView,
    StdError,
> {
    if ledger.staked == 0 {
        Ok(StakerInfoView { staked: amount, ci_0: ci, ..ledger })
    } else {
        match settled(ledger, ci) {
            Err(e) => Err(e),
            Ok(ledger) => if ledger.staked + amount < limit() {
                Ok(StakerInfoView { staked: ledger.staked + amount, ..ledger })
            } else {
                Err(StdError::Overflow)
            },
        }
    }
}

/// The state with the index brought to `ci` at the time `now`.
pub open spec fn advanced(state: StateView, ci: nat, now: nat) -> StateView {
    StateView { ci_current: ci, ci_time_current: now, ..state }
}

/// The order to pay `amount` of `denom` to `user`.
pub open spec fn payment(user: Seq<char>, denom: Seq<char>, amount: nat) -> BankSendView {
    BankSendView { to_address: user, amount: CoinView { denom, amount } }
}

/// The first call: the records at genesis, with the index at `ONE`.
pub open spec fn instantiate_outcome(env: EnvView, info: MessageInfoView, msg: InstantiateMsgView)
    -> Outcome {
    match msg.admin {
        None => Err(ContractError::Std(StdError::InvalidAddress)),
        Some(admin) => Ok(
            (
                StorageView {
                    config: ConfigView { apr: msg.apr, injex_token: msg.injex_token },
                    state: StateView {
                        total_staked: 0,
                        total_withdrawn: 0,
                        ci_current: crate::accrual::ONE as nat,
                        ci_time_current: env.block_time,
                    },
                    admin,
                    user_stakings: Seq::empty(),
                },
                ResponseView::Instantiate { owner: info.sender, apr: msg.apr },
            ),
        ),
    }
}

/// Staking: the one coin sent along is added to the sender's stake.
pub open spec fn stake_outcome(storage: StorageView, env: EnvView, info: MessageInfoView)
    -> Outcome {
    if info.funds.len() != 1 {
        Err(ContractError::InvalidFunds)
    } else if info.funds[0].denom != storage.config.injex_token {
        Err(ContractError::InvalidCoin)
    } else {
        let amount = info.funds[0].amount;
        match index_at(storage.config, storage.state, env.block_time) {
            Err(e) => Err(ContractError::Std(e)),
            Ok(ci) => match topped_up(
                ledger_or_empty(storage, info.sender, env.block_time),
                ci,
                amount,
            ) {
                Err(e) => Err(ContractError::Std(e)),
                Ok(ledger) => if storage.state.total_staked + amount < limit() {
                    Ok(
                        (
                            StorageView {
                                state: StateView {
                                    total_staked: storage.state.total_staked + amount,
                                    ..advanced(storage.state, ci, env.block_time)
                                },
                                user_stakings: with_ledger(
                                    storage.user_stakings,
                                    info.sender,
                                    ledger,
                                ),
                                ..storage
                            },
                            ResponseView::Stake { user: info.sender, amount },
                        ),
                    )
                } else {
                    Err(ContractError::Std(StdError::Overflow))
                },
            },
        }
    }
}

/// Unstaking: `amount` leaves the sender's stake and is paid back.
pub open spec fn unstake_outcome(
    storage: StorageView,
    env: EnvView,
    info: MessageInfoView,
    amount: nat,
) -> Outcome {
    let ledger = ledger_or_empty(storage, info.sender, 0);
    if ledger.staked == 0 {
        Err(ContractError::CannotUnstake)
    } else if ledger.staked < amount {
        Err(ContractError::CannotUnstakeAmount)
    } else {
        match index_at(storage.config, storage.state, env.block_time) {
            Err(e) => Err(ContractError::Std(e)),
            Ok(ci) => match settled(ledger, ci) {
                Err(e) => Err(ContractError::Std(e)),
                Ok(ledger) => if storage.state.total_staked < amount {
                    Err(ContractError::Std(StdError::Overflow))
                } else if amount > u128::MAX {
                    Err(ContractError::Std(StdError::ConversionOverflow))
                } else {
                    Ok(
                        (
                            StorageView {
                                state: StateView {
                                    total_staked: (storage.state.total_staked - amount) as nat,
                                    ..advanced(storage.state, ci, env.block_time)
                                },
                                user_stakings: with_ledger(
                                    storage.user_stakings,
                                    info.sender,
                                    StakerInfoView {
                                        staked: (ledger.staked - amount) as nat,
                                        ..ledger
                                    },
                                ),
                                ..storage
                            },
                            ResponseView::Unstake {
                                payment: payment(info.sender, storage.config.injex_token, amount),
                            },
                        ),
                    )
                },
            },
        }
    }
}

/// Claiming: the sender's reward, settled to now, is paid out, provided the
/// bank holds it on top of everything staked.
pub open spec fn claim_outcome(storage: StorageView, env: EnvView, info: MessageInfoView)
    -> Outcome {
    match index_at(storage.config, storage.state, env.block_time) {
        Err(e) => Err(ContractError::Std(e)),
        Ok(ci) => match settled(ledger_or_empty(storage, info.sender, 0), ci) {
            Err(e) => Err(ContractError::Std(e)),
            Ok(ledger) => if ledger.reward == 0 {
                Err(ContractError::CannotClaim)
            } else if ledger.reward + storage.state.total_staked >= limit() {
                Err(ContractError::Std(StdError::Overflow))
            } else if balance_of(env.contract_funds, storage.config.injex_token) < ledger.reward
                + storage.state.total_staked {
                Err(ContractError::InsufficientContractBalance)
            } else if storage.state.total_withdrawn + ledger.reward >= limit() {
                Err(ContractError::Std(StdError::Overflow))
            } else {
                Ok(
                    (
                        StorageView {
                            state: StateView {
                                total_withdrawn: storage.state.total_withdrawn + ledger.reward,
                                ..advanced(storage.state, ci, env.block_time)
                            },
                            user_stakings: with_ledger(
                                storage.user_stakings,
                                info.sender,
                                StakerInfoView { reward: 0, ..ledger },
                            ),
                            ..storage
                        },
                        ResponseView::Claim {
                            payment: payment(
                                info.sender,
                                storage.config.injex_token,
                                ledger.reward,
                            ),
                        },
                    ),
                )
            },
        },
    }
}

/// Changing the rate: the index is first brought up to date at the old rate.
pub open spec fn change_apr_outcome(
    storage: StorageView,
    env: EnvView,
    info: MessageInfoView,
    new_apr: nat,
) -> Outcome {
    if storage.admin != info.sender {
        Err(ContractError::OnlyAdmin)
    } else if new_apr == 0 {
        Err(ContractError::InvalidApr)
    } else {
        match index_at(storage.config, storage.state, env.block_time) {
            Err(e) => Err(ContractError::Std(e)),
            Ok(ci) => Ok(
                (
                    StorageView {
                        config: ConfigView { apr: new_apr, ..storage.config },
                        state: advanced(storage.state, ci, env.block_time),
                        ..storage
                    },
                    ResponseView::ChangeApr { new_apr },
                ),
            ),
        }
    }
}

/// Changing the token.
pub open spec fn change_injex_token_outcome(
    storage: StorageView,
    info: MessageInfoView,
    new_injex_token: Seq<char>,
) -> Outcome {
    if storage.admin != info.sender {
        Err(ContractError::OnlyAdmin)
    } else {
        Ok(
            (
                StorageView {
                    config: ConfigView { injex_token: new_injex_token, ..storage.config },
                    ..storage
                },
                ResponseView::ChangeInjexToken,
            ),
        )
    }
}

/// Changing the admin, to the address that the host's validator returned.
pub open spec fn change_admin_outcome(
    storage: StorageView,
    info: MessageInfoView,
    new_admin: Option<Seq<char>>,
) -> Outcome {
    if storage.admin != info.sender {
        Err(ContractError::OnlyAdmin)
    } else {
        match new_admin {
            None => Err(ContractError::Std(StdError::InvalidAddress)),
            Some(admin) => Ok((StorageView { admin, ..storage }, ResponseView::ChangeAdmin)),
        }
    }
}

/// Any operation.
pub open spec fn execute_outcome(
    storage: StorageView,
    env: EnvView,
    info: MessageInfoView,
    msg: ExecuteMsgView,
) -> Outcome {
    match msg {
        ExecuteMsgView::Stake => stake_outcome(storage, env, info),
        ExecuteMsgView::Claim => claim_outcome(storage, env, info),
        ExecuteMsgView::Unstake { amount } => unstake_outcome(storage, env, info, amount),
        ExecuteMsgView::ChangeApr { new_apr } => change_apr_outcome(storage, env, info, new_apr),
        ExecuteMsgView::ChangeAdmin { address } => change_admin_outcome(storage, info, address),
        ExecuteMsgView::ChangeInjexToken { new_injex_token } => change_injex_token_outcome(
            storage,
            info,
            new_injex_token,
        ),
    }
}

/// The records after an operation: the new ones where it succeeded, the old
/// ones where it was refused.
pub open spec fn storage_after(storage: StorageView, outcome: Outcome) -> StorageView {
    match outcome {
        Ok((after, _)) => after,
        Err(_) => storage,
    }
}

/// What the user could claim at the time `now`: the reward of their ledger,
/// settled to that time.
pub open spec fn claimable(storage: StorageView, now: nat, user: Seq<char>) -> Result<
    nat,
    StdError,
> {
    match ledger_of(storage.user_stakings, user) {
        None => Err(StdError::NotFound),
        Some(ledger) => match index_at(storage.config, storage.state, now) {
            Err(e) => Err(e),
            Ok(ci) => match settled(ledger, ci) {
                Err(e) => Err(e),
                Ok(ledger) => Ok(ledger.reward),
            },
        },
    }
}

/// The answer to a request.
pub open spec fn query_outcome(storage: StorageView, env: EnvView, msg: QueryMsgView) -> Result<
    QueryResponseView,
    StdError,
> {
    match msg {
        QueryMsgView::GetTotalStaked => Ok(
            QueryResponseView::TotalStaked(storage.state.total_staked),
        ),
        QueryMsgView::GetTotalWithdrawn => Ok(
            QueryResponseView::TotalWithdrawn(storage.state.total_withdrawn),
        ),
        QueryMsgView::GetInjexToken => Ok(
            QueryResponseView::InjexToken(storage.config.injex_token),
        ),
        QueryMsgView::GetApr => Ok(QueryResponseView::Apr(storage.config.apr)),
        QueryMsgView::GetState => Ok(QueryResponseView::State(storage.state)),
        QueryMsgView::GetStakerInfo { user } => match ledger_of(storage.user_stakings, user) {
            Some(ledger) => Ok(QueryResponseView::StakerInfo(ledger)),
            None => Err(StdError::NotFound),
        },
        QueryMsgView::GetClaimableAmount { user } => match claimable(
            storage,
            env.block_time,
            user,
        ) {
            Ok(reward) => Ok(QueryResponseView::ClaimableAmount(reward)),
            Err(e) => Err(e),
        },
    }
}

} // verus!
