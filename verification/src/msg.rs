//! What comes in with a call and what goes out with its result.

use vstd::prelude::*;
use crate::coin::{coins_view, BankSend, BankSendView, Coin, CoinView};
use crate::state::{StakerInfo, StakerInfoView, State, StateView};
use crate::timestamp::Timestamp;
use crate::uint256::Uint256;

verus! {

/// What the host answers for one call: the time of the block, and what the
/// bank holds for the contract.
#[derive(Clone, Debug, PartialEq)]
pub struct Env {
    pub block_time: Timestamp,
    pub contract_funds: Vec<Coin>,
}

/// Who calls, and the coins sent along.
#[derive(Clone, Debug, PartialEq)]
pub struct MessageInfo {
    pub sender: String,
    pub funds: Vec<Coin>,
}

/// The first call: the rate, the token, and the admin's address as the host's
/// validator returned it (`None` where it refused the address).
#[derive(Clone, Debug, PartialEq)]
pub struct InstantiateMsg {
    pub apr: Uint256,
    pub injex_token: String,
    pub admin: Option<String>,
}

/// A request that changes nothing.
#[derive(Clone, Debug, PartialEq)]
pub enum QueryMsg {
    GetTotalStaked,
    GetTotalWithdrawn,
    GetInjexToken,
    GetApr,
    GetState,
    GetStakerInfo { user: String },
    GetClaimableAmount { user: String },
}

/// An operation. The address in `ChangeAdmin` is the one that the host's
/// validator returned, `None` where it refused the address.
#[derive(Clone, Debug, PartialEq)]
pub enum ExecuteMsg {
    Stake,
    Claim,
    Unstake { amount: Uint256 },
    ChangeApr { new_apr: Uint256 },
    ChangeAdmin { address: Option<String> },
    ChangeInjexToken { new_injex_token: String },
}

/// What an operation that succeeded reports, and what it orders the bank to
/// pay.
#[derive(Clone, Debug, PartialEq)]
pub enum Response {
    Instantiate { owner: String, apr: Uint256 },
    Stake { user: String, amount: Uint256 },
    Unstake { payment: BankSend },
    Claim { payment: BankSend },
    ChangeApr { new_apr: Uint256 },
    ChangeInjexToken,
    ChangeAdmin,
}

/// The answer to a request.
#[derive(Clone, Debug, PartialEq)]
pub enum QueryResponse {
    TotalStaked(Uint256),
    TotalWithdrawn(Uint256),
    InjexToken(String),
    Apr(Uint256),
    State(State),
    StakerInfo(StakerInfo),
    ClaimableAmount(Uint256),
}

/// What a [`Env`] stands for.
pub struct EnvView {
    pub block_time: nat,
    pub contract_funds: Seq<CoinView>,
}

/// What a [`MessageInfo`] stands for.
pub struct MessageInfoView {
    pub sender: Seq<char>,
    pub funds: Seq<CoinView>,
}

/// What a [`InstantiateMsg`] stands for.
pub struct InstantiateMsgView {
    pub apr: nat,
    pub injex_token: Seq<char>,
    pub admin: Option<Seq<char>>,
}

/// What a [`QueryMsg`] stands for.
pub enum QueryMsgView {
    GetTotalStaked,
    GetTotalWithdrawn,
    GetInjexToken,
    GetApr,
    GetState,
    GetStakerInfo { user: Seq<char> },
    GetClaimableAmount { user: Seq<char> },
}

/// What a [`ExecuteMsg`] stands for.
pub enum ExecuteMsgView {
    Stake,
    Claim,
    Unstake { amount: nat },
    ChangeApr { new_apr: nat },
    ChangeAdmin { address: Option<Seq<char>> },
    ChangeInjexToken { new_injex_token: Seq<char> },
}

/// What a [`Response`] stands for.
pub enum ResponseView {
    Instantiate { owner: Seq<char>, apr: nat },
    Stake { user: Seq<char>, amount: nat },
    Unstake { payment: BankSendView },
    Claim { payment: BankSendView },
    ChangeApr { new_apr: nat },
    ChangeInjexToken,
    ChangeAdmin,
}

/// What a [`QueryResponse`] stands for.
pub enum QueryResponseView {
    TotalStaked(nat),
    TotalWithdrawn(nat),
    InjexToken(Seq<char>),
    Apr(nat),
    State(StateView),
    StakerInfo(StakerInfoView),
    ClaimableAmount(nat),
}

/// An address as the model sees it.
pub open spec fn address_view(address: Option<String>) -> Option<Seq<char>> {
    match address {
        Some(a) => Some(a@),
        None => None,
    }
}

impl View for Env {
    type V = EnvView;

    open spec fn view(&self) -> EnvView {
        EnvView {
            block_time: self.block_time@,
            contract_funds: coins_view(self.contract_funds@),
        }
    }
}

impl View for MessageInfo {
    type V = MessageInfoView;

    open spec fn view(&self) -> MessageInfoView {
        MessageInfoView { sender: self.sender@, funds: coins_view(self.funds@) }
    }
}

impl View for InstantiateMsg {
    type V = InstantiateMsgView;

    open spec fn view(&self) -> InstantiateMsgView {
        InstantiateMsgView {
            apr: self.apr@,
            injex_token: self.injex_token@,
            admin: address_view(self.admin),
        }
    }
}

impl View for QueryMsg {
    type V = QueryMsgView;

    open spec fn view(&self) -> QueryMsgView {
        match self {
            QueryMsg::GetTotalStaked => QueryMsgView::GetTotalStaked,
            QueryMsg::GetTotalWithdrawn => QueryMsgView::GetTotalWithdrawn,
            QueryMsg::GetInjexToken => QueryMsgView::GetInjexToken,
            QueryMsg::GetApr => QueryMsgView::GetApr,
            QueryMsg::GetState => QueryMsgView::GetState,
            QueryMsg::GetStakerInfo { user } => QueryMsgView::GetStakerInfo { user: user@ },
            QueryMsg::GetClaimableAmount { user } => QueryMsgView::GetClaimableAmount {
                user: user@,
            },
        }
    }
}

impl View for ExecuteMsg {
    type V = ExecuteMsgView;

    open spec fn view(&self) -> ExecuteMsgView {
        match self {
            ExecuteMsg::Stake => ExecuteMsgView::Stake,
            ExecuteMsg::Claim => ExecuteMsgView::Claim,
            ExecuteMsg::Unstake { amount } => ExecuteMsgView::Unstake { amount: amount@ },
            ExecuteMsg::ChangeApr { new_apr } => ExecuteMsgView::ChangeApr { new_apr: new_apr@ },
            ExecuteMsg::ChangeAdmin { address } => ExecuteMsgView::ChangeAdmin {
                address: address_view(*address),
            },
            ExecuteMsg::ChangeInjexToken { new_injex_token } => ExecuteMsgView::ChangeInjexToken {
                new_injex_token: new_injex_token@,
            },
        }
    }
}

impl View for Response {
    type V = ResponseView;

    open spec fn view(&self) -> ResponseView {
        match self {
            Response::Instantiate { owner, apr } => ResponseView::Instantiate {
                owner: owner@,
                apr: apr@,
            },
            Response::Stake { user, amount } => ResponseView::Stake {
                user: user@,
                amount: amount@,
            },
            Response::Unstake { payment } => ResponseView::Unstake { payment: payment@ },
            Response::Claim { payment } => ResponseView::Claim { payment: payment@ },
            Response::ChangeApr { new_apr } => ResponseView::ChangeApr { new_apr: new_apr@ },
            Response::ChangeInjexToken => ResponseView::ChangeInjexToken,
            Response::ChangeAdmin => ResponseView::ChangeAdmin,
        }
    }
}

impl View for QueryResponse {
    type V = QueryResponseView;

    open spec fn view(&self) -> QueryResponseView {
        match self {
            QueryResponse::TotalStaked(v) => QueryResponseView::TotalStaked(v@),
            QueryResponse::TotalWithdrawn(v) => QueryResponseView::TotalWithdrawn(v@),
            QueryResponse::InjexToken(v) => QueryResponseView::InjexToken(v@),
            QueryResponse::Apr(v) => QueryResponseView::Apr(v@),
            QueryResponse::State(v) => QueryResponseView::State(v@),
            QueryResponse::StakerInfo(v) => QueryResponseView::StakerInfo(v@),
            QueryResponse::ClaimableAmount(v) => QueryResponseView::ClaimableAmount(v@),
        }
    }
}

} // verus!
