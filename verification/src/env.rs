//! What the host tells the contract about one invocation.

use vstd::prelude::*;
use crate::coin::{Coin, CoinView};

verus! {

/// A point in time, in nanoseconds since the epoch.
#[derive(Clone, Copy, Debug, PartialEq, Eq)]
pub struct Timestamp {
    pub nanos: u64,
}

/// How many nanoseconds a second has.
pub const NANOS_PER_SECOND: u64 = 1_000_000_000;

impl Timestamp {
    /// The time `nanos` nanoseconds after the epoch.
    pub fn from_nanos(nanos: u64) -> (time: Timestamp)
        ensures
            time.nanos == nanos,
    {
        Timestamp { nanos }
    }

    /// The time `seconds` seconds after the epoch, which must be a time that
    /// a count of nanoseconds can name.
    pub fn from_seconds(seconds: u64) -> (time: Timestamp)
        requires
            seconds * NANOS_PER_SECOND <= u64::MAX,
        ensures
            time.nanos == seconds * NANOS_PER_SECOND,
    {
        Timestamp { nanos: seconds * NANOS_PER_SECOND }
    }
}

/// The block in which the invocation runs.
#[derive(Clone, Debug, PartialEq, Eq)]
pub struct BlockInfo {
    pub height: u64,
    pub time: Timestamp,
    pub chain_id: String,
}

/// The contract instance that is invoked.
#[derive(Clone, Debug, PartialEq, Eq)]
pub struct ContractInfo {
    pub address: String,
}

/// The environment of one invocation.
#[derive(Clone, Debug, PartialEq, Eq)]
pub struct Env {
    pub block: BlockInfo,
    pub contract: ContractInfo,
}

/// Who invokes the contract, and the funds sent along.
#[derive(Clone, Debug, PartialEq, Eq)]
pub struct MessageInfo {
    pub sender: String,
    pub funds: Vec<Coin>,
}

/// The mathematical value of a [`MessageInfo`].
pub struct MessageInfoView {
    pub sender: Seq<char>,
    pub funds: Seq<CoinView>,
}

impl View for MessageInfo {
    type V = MessageInfoView;

    open spec fn view(&self) -> MessageInfoView {
        MessageInfoView { sender: self.sender@, funds: self.funds.deep_view() }
    }
}

} // verus!
