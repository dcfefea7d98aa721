//! The messages that the contract accepts, and its answers to queries.

use vstd::prelude::*;
use crate::coin::{Coin, CoinView};
use crate::expiration::Expiration;

verus! {

/// Sets up the escrow: the funds go to `recipient` when `agent` releases
/// them, and back to the sender of this message when the escrow has expired.
#[derive(Clone, Debug, PartialEq, Eq)]
pub struct InstantiateMsg {
    pub recipient: String,
    pub agent: String,
    pub escrow_token: String,
    pub expiration: Option<Expiration>,
}

/// The mathematical value of an [`InstantiateMsg`].
pub struct InstantiateMsgView {
    pub recipient: Seq<char>,
    pub agent: Seq<char>,
    pub escrow_token: Seq<char>,
    pub expiration: Option<Expiration>,
}

impl View for InstantiateMsg {
    type V = InstantiateMsgView;

    open spec fn view(&self) -> InstantiateMsgView {
        InstantiateMsgView {
            recipient: self.recipient@,
            agent: self.agent@,
            escrow_token: self.escrow_token@,
            expiration: self.expiration,
        }
    }
}

/// An operation on the escrow.
#[derive(Clone, Debug, PartialEq, Eq)]
pub enum ExecuteMsg {
    /// Pay `amount` into the escrow.
    Deposit { amount: Vec<Coin> },
    /// Release `amount` to the recipient, or all that the contract holds.
    Withdraw { amount: Option<Vec<Coin>> },
    /// Return all that the contract holds to the creator.
    Refund {},
}

/// The mathematical value of an [`ExecuteMsg`].
pub enum ExecuteMsgView {
    Deposit { amount: Seq<CoinView> },
    Withdraw { amount: Option<Seq<CoinView>> },
    Refund,
}

impl View for ExecuteMsg {
    type V = ExecuteMsgView;

    open spec fn view(&self) -> ExecuteMsgView {
        match self {
            ExecuteMsg::Deposit { amount } => ExecuteMsgView::Deposit {
                amount: amount.deep_view(),
            },
            ExecuteMsg::Withdraw { amount } => ExecuteMsgView::Withdraw {
                amount: amount.deep_view(),
            },
            ExecuteMsg::Refund {} => ExecuteMsgView::Refund,
        }
    }
}

/// A question to the contract.
#[derive(Clone, Copy, Debug, PartialEq, Eq)]
pub enum QueryMsg {
    /// Who may release or refund the funds?
    Agent {},
}

/// The answer to [`QueryMsg::Agent`].
#[derive(Clone, Debug, PartialEq, Eq)]
pub struct AgentResp {
    pub agent: String,
}

impl View for AgentResp {
    type V = Seq<char>;

    open spec fn view(&self) -> Seq<char> {
        self.agent@
    }
}

} // verus!
