//! The escrow record and the store that keeps it.

use vstd::prelude::*;
use crate::coin::{Coin, CoinView};
use crate::env::BlockInfo;
use crate::error::{StdError, StdErrorView, StdResult};
use crate::expiration::{expired, is_expired, Expiration};

verus! {

/// The record of one escrow.
#[derive(Clone, Debug, PartialEq, Eq)]
pub struct Escrow {
    /// Who set the escrow up, and gets the funds back on a refund.
    pub creator: String,
    /// Who may release or refund the funds.
    pub arbiter: String,
    /// Who gets the funds on a withdrawal.
    pub recipient: String,
    /// When the escrow expires, if ever.
    pub expiration: Option<Expiration>,
    /// The value accounted against the escrow.
    pub balance: Vec<Coin>,
}

/// The mathematical value of an [`Escrow`].
pub struct EscrowView {
    pub creator: Seq<char>,
    pub arbiter: Seq<char>,
    pub recipient: Seq<char>,
    pub expiration: Option<Expiration>,
    pub balance: Seq<CoinView>,
}

impl View for Escrow {
    type V = EscrowView;

    open spec fn view(&self) -> EscrowView {
        EscrowView {
            creator: self.creator@,
            arbiter: self.arbiter@,
            recipient: self.recipient@,
            expiration: self.expiration,
            balance: self.balance.deep_view(),
        }
    }
}

impl Escrow {
    /// Whether `caller` may release or refund the funds: only the arbiter may.
    pub fn is_authorized(&self, caller: &String) -> (authorized: bool)
        ensures
            authorized == (caller@ == self@.arbiter),
    {
        *caller == self.arbiter
    }

    /// Whether the escrow has expired in `block`; one without an expiration
    /// never has.
    pub fn is_expired(&self, block: &BlockInfo) -> (elapsed: bool)
        ensures
            elapsed == expired(self@.expiration, *block),
    {
        is_expired(&self.expiration, block)
    }
}

/// The name under which the store keeps the escrow record.
pub open spec fn escrow_key() -> Seq<char> {
    "escrow"@
}

/// The name under which the store keeps the token of the escrow.
pub open spec fn escrow_token_key() -> Seq<char> {
    "escrow_token"@
}

/// What the contract keeps between invocations: at most one escrow record,
/// and the denomination that the escrow accepts.
#[derive(Clone, Debug, PartialEq, Eq)]
pub struct Store {
    pub escrow: Option<Escrow>,
    pub escrow_token: Option<String>,
}

/// The mathematical value of a [`Store`].
pub struct StoreView {
    pub escrow: Option<EscrowView>,
    pub escrow_token: Option<Seq<char>>,
}

impl StoreView {
    /// The store before the escrow is set up.
    pub open spec fn empty() -> StoreView {
        StoreView { escrow: None, escrow_token: None }
    }

    /// What loading the escrow record gives.
    pub open spec fn load_escrow(self) -> Result<EscrowView, StdErrorView> {
        match self.escrow {
            Some(escrow) => Ok(escrow),
            None => Err(StdErrorView::NotFound { kind: escrow_key() }),
        }
    }

    /// What loading the token of the escrow gives.
    pub open spec fn load_escrow_token(self) -> Result<Seq<char>, StdErrorView> {
        match self.escrow_token {
            Some(token) => Ok(token),
            None => Err(StdErrorView::NotFound { kind: escrow_token_key() }),
        }
    }
}

impl View for Store {
    type V = StoreView;

    open spec fn view(&self) -> StoreView {
        StoreView {
            escrow: match self.escrow {
                Some(escrow) => Some(escrow@),
                None => None,
            },
            escrow_token: match self.escrow_token {
                Some(token) => Some(token@),
                None => None,
            },
        }
    }
}

impl Store {
    /// The store before the escrow is set up.
    pub fn new() -> (store: Store)
        ensures
            store@ == StoreView::empty(),
    {
        Store { escrow: None, escrow_token: None }
    }

    /// The escrow record, or `NotFound` before the escrow is set up.
    pub fn load_escrow(&self) -> (loaded: StdResult<&Escrow>)
        ensures
            match loaded {
                Ok(escrow) => self@.load_escrow() == Ok::<EscrowView, StdErrorView>(escrow@),
                Err(error) => self@.load_escrow() == Err::<EscrowView, StdErrorView>(error@),
            },
    {
        match &self.escrow {
            Some(escrow) => Ok(escrow),
            None => Err(StdError::NotFound { kind: "escrow".to_owned() }),
        }
    }

    /// The token of the escrow, or `NotFound` before the escrow is set up.
    pub fn load_escrow_token(&self) -> (loaded: StdResult<&String>)
        ensures
            match loaded {
                Ok(token) => self@.load_escrow_token() == Ok::<Seq<char>, StdErrorView>(token@),
                Err(error) => self@.load_escrow_token() == Err::<Seq<char>, StdErrorView>(
                    error@,
                ),
            },
    {
        match &self.escrow_token {
            Some(token) => Ok(token),
            None => Err(StdError::NotFound { kind: "escrow_token".to_owned() }),
        }
    }

    /// Keeps `escrow` as the escrow record.
    pub fn save_escrow(&mut self, escrow: Escrow)
        ensures
            final(self)@ == (StoreView { escrow: Some(escrow@), ..old(self)@ }),
    {
        self.escrow = Some(escrow);
    }

    /// Keeps `token` as the token of the escrow.
    pub fn save_escrow_token(&mut self, token: String)
        ensures
            final(self)@ == (StoreView { escrow_token: Some(token@), ..old(self)@ }),
    {
        self.escrow_token = Some(token);
    }
}

} // verus!
