use vstd::prelude::*;

use crate::state::EscrowState;

verus! {

/// The transitions a caller can invoke, used to ask the authorization guard
/// who may do what.
#[derive(Clone, Copy, Debug, PartialEq, Eq, Structural)]
pub enum Operation {
    Initiate,
    Fund,
    OpenDispute,
    Resolve,
    Release,
    Refund,
}

/// Who may invoke which transition on a record: the seller initiates and
/// collects a release, the buyer funds and collects a refund, either
/// transacting party opens a dispute, and only the arbiter resolves.
pub open spec fn authorized(record: EscrowState, caller: u128, op: Operation) -> bool {
    match op {
        Operation::Initiate => caller == record.seller,
        Operation::Fund => caller == record.buyer,
        Operation::OpenDispute => caller == record.seller || caller == record.buyer,
        Operation::Resolve => caller == record.arbiter,
        Operation::Release => caller == record.seller,
        Operation::Refund => caller == record.buyer,
    }
}

/// The authorization guard: a pure decision with no side effect. The engine
/// reports a denial as the distinct error `EscrowError::Unauthorized`.
pub fn authorize(record: &EscrowState, caller: u128, op: Operation) -> (allowed: bool)
    ensures
        allowed == authorized(*record, caller, op),
{
    match op {
        Operation::Initiate => caller == record.seller,
        Operation::Fund => caller == record.buyer,
        Operation::OpenDispute => caller == record.seller || caller == record.buyer,
        Operation::Resolve => caller == record.arbiter,
        Operation::Release => caller == record.seller,
        Operation::Refund => caller == record.buyer,
    }
}

/// Whether the dispute window is still open at `now`: a `dispute_by` of zero
/// means the window never closes, and otherwise the window ends exactly at
/// `dispute_by`. Opening a dispute is the only deadline-gated transition.
pub open spec fn deadline_ok(record: EscrowState, now: i64) -> bool {
    record.dispute_by == 0 || now <= record.dispute_by
}

/// The deadline guard: a pure decision with no side effect. The engine
/// reports a closed window as the distinct error `EscrowError::DeadlinePassed`.
pub fn check_deadline(record: &EscrowState, now: i64) -> (ok: bool)
    ensures
        ok == deadline_ok(*record, now),
{
    record.dispute_by == 0 || now <= record.dispute_by
}

} // verus!
