//! The point at which an escrow expires.

use vstd::prelude::*;
use crate::env::{BlockInfo, Timestamp};

verus! {

/// A bound on the life of an escrow, by block height or by block time.
#[derive(Clone, Copy, Debug, PartialEq, Eq)]
pub enum Expiration {
    /// Expired once the block height has reached this height.
    AtHeight(u64),
    /// Expired once the block time has reached this time.
    AtTime(Timestamp),
    /// Never expired.
    Never {},
}

impl Expiration {
    /// Whether the bound has been reached in `block`.
    pub open spec fn reached(self, block: BlockInfo) -> bool {
        match self {
            Expiration::AtHeight(height) => block.height >= height,
            Expiration::AtTime(time) => block.time.nanos >= time.nanos,
            Expiration::Never {} => false,
        }
    }
}

/// Whether an optional bound has been reached in `block`; without a bound
/// nothing ever expires.
pub open spec fn expired(expiration: Option<Expiration>, block: BlockInfo) -> bool {
    match expiration {
        Some(bound) => bound.reached(block),
        None => false,
    }
}

/// Calls `cw_utils::Expiration::is_expired` on the same bound and block.
/// Not proved: that the call answers `block.height >= height` for a height
/// bound, `block.time >= time` for a time bound, and `false` for `Never`.
#[verifier::external_body]
fn bound_is_expired(bound: &Expiration, block: &BlockInfo) -> (reached: bool)
    ensures
        reached == bound.reached(*block),
{
    let bound = match bound {
        Expiration::AtHeight(height) => cw_utils::Expiration::AtHeight(*height),
        Expiration::AtTime(time) => {
            cw_utils::Expiration::AtTime(cosmwasm_std::Timestamp::from_nanos(time.nanos))
        }
        Expiration::Never {} => cw_utils::Expiration::Never {},
    };
    let block = cosmwasm_std::BlockInfo {
        height: block.height,
        time: cosmwasm_std::Timestamp::from_nanos(block.time.nanos),
        chain_id: block.chain_id.clone(),
    };
    bound.is_expired(&block)
}

/// Whether `expiration` has elapsed in `block`.
pub fn is_expired(expiration: &Option<Expiration>, block: &BlockInfo) -> (elapsed: bool)
    ensures
        elapsed == expired(*expiration, *block),
{
    match expiration {
        Some(bound) => bound_is_expired(bound, block),
        None => false,
    }
}

} // verus!
