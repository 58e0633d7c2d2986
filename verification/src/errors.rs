use vstd::prelude::*;

verus! {

/// The failure taxonomy of the escrow core.
///
/// Every transition either succeeds or reports exactly one of these; a failing
/// call leaves the deal record and every custody balance unchanged, so a
/// caller can always retry after fixing the named condition.
#[derive(Clone, Copy, Debug, PartialEq, Eq, Structural)]
pub enum EscrowError {
    /// The caller identity may not invoke this transition on this record.
    Unauthorized,
    /// The record's status (or, for a payout, its verdict) does not admit
    /// this transition.
    InvalidState,
    /// The dispute window closed before the call.
    DeadlinePassed,
    /// The paying account holds less than the escrowed amount, or the amount
    /// to move is zero.
    InsufficientFunds,
    /// A custody account holds a different asset class than the deal's.
    AssetMismatch,
    /// The ticket names a different deal than the record.
    TicketMismatch,
    /// The ticket's expected nonce differs from the record's current nonce,
    /// so the ticket was issued for an earlier (or later) resolution.
    StaleTicket,
    /// The ticket expired before the current time.
    ExpiredTicket,
    /// The ticket's payout percentages do not sum to one hundred, or do not
    /// describe the binary payout this core supports.
    InvalidSplit,
    /// The ticket's signature did not verify against the arbiter's key.
    SignatureInvalid,
    /// Nonce or balance arithmetic would overflow its machine width.
    ArithmeticOverflow,
    /// The escrowed amount given at initiation is zero.
    InvalidAmount,
    /// The fee given at initiation exceeds ten thousand basis points.
    InvalidFee,
}

} // verus!
