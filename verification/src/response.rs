//! What a successful invocation hands back: transfer instructions for the
//! ledger, and attributes that describe what was done.

use vstd::prelude::*;
use crate::coin::{Coin, CoinView};

verus! {

/// A key and a value that describe a step.
#[derive(Clone, Debug, PartialEq, Eq)]
pub struct Attribute {
    pub key: String,
    pub value: String,
}

/// The mathematical value of an [`Attribute`].
pub struct AttributeView {
    pub key: Seq<char>,
    pub value: Seq<char>,
}

impl View for Attribute {
    type V = AttributeView;

    open spec fn view(&self) -> AttributeView {
        AttributeView { key: self.key@, value: self.value@ }
    }
}

impl DeepView for Attribute {
    type V = AttributeView;

    open spec fn deep_view(&self) -> AttributeView {
        self@
    }
}

/// An instruction to the ledger.
#[derive(Clone, Debug, PartialEq, Eq)]
pub enum BankMsg {
    /// Move `amount` out of the contract's holdings to `to_address`.
    Send { to_address: String, amount: Vec<Coin> },
}

/// The mathematical value of a [`BankMsg`]: a transfer of `amount` to
/// `to_address`.
pub struct Transfer {
    pub to_address: Seq<char>,
    pub amount: Seq<CoinView>,
}

impl View for BankMsg {
    type V = Transfer;

    open spec fn view(&self) -> Transfer {
        match self {
            BankMsg::Send { to_address, amount } => Transfer {
                to_address: to_address@,
                amount: amount.deep_view(),
            },
        }
    }
}

impl DeepView for BankMsg {
    type V = Transfer;

    open spec fn deep_view(&self) -> Transfer {
        self@
    }
}

/// The answer to a successful invocation.
#[derive(Clone, Debug, PartialEq, Eq)]
pub struct Response {
    pub messages: Vec<BankMsg>,
    pub attributes: Vec<Attribute>,
}

/// The mathematical value of a [`Response`].
pub struct ResponseView {
    pub messages: Seq<Transfer>,
    pub attributes: Seq<AttributeView>,
}

impl ResponseView {
    /// The response without instructions or attributes.
    pub open spec fn empty() -> ResponseView {
        ResponseView { messages: Seq::empty(), attributes: Seq::empty() }
    }
}

impl View for Response {
    type V = ResponseView;

    open spec fn view(&self) -> ResponseView {
        ResponseView {
            messages: self.messages.deep_view(),
            attributes: self.attributes.deep_view(),
        }
    }
}

impl Response {
    /// A response without instructions or attributes.
    pub fn new() -> (response: Response)
        ensures
            response@ == ResponseView::empty(),
    {
        let response = Response { messages: Vec::new(), attributes: Vec::new() };
        assert(response.messages.deep_view() =~= Seq::empty());
        assert(response.attributes.deep_view() =~= Seq::empty());
        response
    }

    /// The response with `msg` as its last instruction.
    pub fn add_message(self, msg: BankMsg) -> (response: Response)
        ensures
            response@ == (ResponseView {
                messages: self@.messages.push(msg@),
                attributes: self@.attributes,
            }),
    {
        let mut response = self;
        response.messages.push(msg);
        assert(response.messages.deep_view() =~= self.messages.deep_view().push(msg@));
        response
    }

    /// The response with the attribute `key = value` as its last attribute.
    pub fn add_attribute(self, key: &str, value: &str) -> (response: Response)
        ensures
            response@ == (ResponseView {
                messages: self@.messages,
                attributes: self@.attributes.push(AttributeView { key: key@, value: value@ }),
            }),
    {
        let mut response = self;
        let attribute = Attribute { key: key.to_owned(), value: value.to_owned() };
        response.attributes.push(attribute);
        assert(response.attributes.deep_view() =~= self.attributes.deep_view().push(
            attribute@,
        ));
        response
    }
}

} // verus!
