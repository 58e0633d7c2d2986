use vstd::prelude::*;

use crate::state::Verdict;

verus! {

/// Emitted when a deal record is created.
#[derive(Clone, Copy, Debug, PartialEq, Eq, Structural)]
pub struct DealInitiated {
    pub deal_id: u128,
    pub seller: u128,
    pub buyer: u128,
    pub asset_class: u128,
    pub amount: u64,
}

/// Emitted when the buyer's funds reach custody.
#[derive(Clone, Copy, Debug, PartialEq, Eq, Structural)]
pub struct DealFunded {
    pub deal_id: u128,
    pub buyer: u128,
    pub amount: u64,
}

/// Emitted when a transacting party opens a dispute.
#[derive(Clone, Copy, Debug, PartialEq, Eq, Structural)]
pub struct DealDisputed {
    pub deal_id: u128,
    /// The party that opened the dispute.
    pub by: u128,
}

/// Emitted when the arbiter's ticket is accepted.
#[derive(Clone, Copy, Debug, PartialEq, Eq, Structural)]
pub struct DealResolved {
    pub deal_id: u128,
    pub verdict: Verdict,
}

/// Emitted when custody pays out to the seller.
#[derive(Clone, Copy, Debug, PartialEq, Eq, Structural)]
pub struct DealReleased {
    pub deal_id: u128,
    pub amount: u64,
}

/// Emitted when custody pays back to the buyer.
#[derive(Clone, Copy, Debug, PartialEq, Eq, Structural)]
pub struct DealRefunded {
    pub deal_id: u128,
    pub amount: u64,
}

} // verus!
