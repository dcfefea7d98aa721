//! The errors with which an invocation can fail.

use vstd::prelude::*;
use crate::expiration::Expiration;

verus! {

/// A failure of the store or of the environment.
#[derive(Clone, Debug, PartialEq, Eq)]
pub enum StdError {
    /// Nothing is stored under the name `kind`.
    NotFound { kind: String },
    /// An amount left the range of its type.
    Overflow {},
    /// Any other failure, with its message.
    GenericErr { msg: String },
}

/// The mathematical value of a [`StdError`].
pub enum StdErrorView {
    NotFound { kind: Seq<char> },
    Overflow,
    GenericErr { msg: Seq<char> },
}

impl View for StdError {
    type V = StdErrorView;

    open spec fn view(&self) -> StdErrorView {
        match self {
            StdError::NotFound { kind } => StdErrorView::NotFound { kind: kind@ },
            StdError::Overflow {} => StdErrorView::Overflow,
            StdError::GenericErr { msg } => StdErrorView::GenericErr { msg: msg@ },
        }
    }
}

/// A result whose failure is a [`StdError`].
pub type StdResult<T> = Result<T, StdError>;

/// What is wrong with the coins of a payment.
#[derive(Clone, Debug, PartialEq, Eq)]
pub enum PaymentError {
    /// More than one coin was paid.
    MultipleDenoms {},
    /// Nothing was paid: no coin, or a coin of no units.
    NoFunds {},
}

/// The mathematical value of a [`PaymentError`].
pub enum PaymentErrorView {
    MultipleDenoms,
    NoFunds,
}

impl View for PaymentError {
    type V = PaymentErrorView;

    open spec fn view(&self) -> PaymentErrorView {
        match self {
            PaymentError::MultipleDenoms {} => PaymentErrorView::MultipleDenoms,
            PaymentError::NoFunds {} => PaymentErrorView::NoFunds,
        }
    }
}

/// Why the contract refused an invocation.
#[derive(Clone, Debug, PartialEq, Eq)]
pub enum ContractError {
    /// The store or the environment failed.
    Std(StdError),
    /// The payment of a deposit is not one positive coin.
    Payment(PaymentError),
    /// The sender is not the arbiter of the escrow.
    Unauthorized { sender: String },
    /// The escrow has expired.
    Expired { expiration: Expiration },
    /// The escrow has not expired yet.
    NotExpired {},
    /// No funds were sent with the message.
    NoFunds,
    /// The token paid is not the token of the escrow.
    TokenMismatch,
}

/// The mathematical value of a [`ContractError`].
pub enum ContractErrorView {
    Std(StdErrorView),
    Payment(PaymentErrorView),
    Unauthorized { sender: Seq<char> },
    Expired { expiration: Expiration },
    NotExpired,
    NoFunds,
    TokenMismatch,
}

impl View for ContractError {
    type V = ContractErrorView;

    open spec fn view(&self) -> ContractErrorView {
        match self {
            ContractError::Std(error) => ContractErrorView::Std(error@),
            ContractError::Payment(error) => ContractErrorView::Payment(error@),
            ContractError::Unauthorized { sender } => ContractErrorView::Unauthorized {
                sender: sender@,
            },
            ContractError::Expired { expiration } => ContractErrorView::Expired {
                expiration: *expiration,
            },
            ContractError::NotExpired {} => ContractErrorView::NotExpired,
            ContractError::NoFunds => ContractErrorView::NoFunds,
            ContractError::TokenMismatch => ContractErrorView::TokenMismatch,
        }
    }
}

} // verus!
