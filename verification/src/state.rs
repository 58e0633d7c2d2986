use vstd::prelude::*;

verus! {

/// Where a deal stands in its lifecycle. A record only ever advances along
/// `Init -> Funded -> {Disputed -> Resolved, Resolved} -> {Released, Refunded}`;
/// the two payout states are terminal.
#[derive(Clone, Copy, Debug, PartialEq, Eq, Structural)]
pub enum EscrowStatus {
    Init,
    Funded,
    Disputed,
    Resolved,
    Released,
    Refunded,
}

/// The arbiter's decision, set only by a successful resolution and consumed
/// exactly once by the matching payout transition.
#[derive(Clone, Copy, Debug, PartialEq, Eq, Structural)]
pub enum Verdict {
    /// No resolution has been accepted yet.
    Pending,
    /// Custody pays out to the seller.
    Release,
    /// Custody pays back to the buyer.
    Refund,
}

/// The persistent state of one escrow deal.
///
/// Identities (seller, buyer, arbiter), the asset class, and the custody
/// handle are opaque keys supplied by the host ledger; the core only ever
/// compares them. Timestamps are signed seconds; `dispute_by == 0` means the
/// dispute window never closes.
#[derive(Clone, Copy, Debug, PartialEq, Eq, Structural)]
pub struct EscrowState {
    /// Unique identifier of the deal.
    pub deal_id: u128,
    /// Identity that receives custody on release.
    pub seller: u128,
    /// Identity that funds the deal and receives custody back on refund.
    pub buyer: u128,
    /// Identity whose signed tickets resolve the deal.
    pub arbiter: u128,
    /// The one fungible asset type every custody move of this deal must carry.
    pub asset_class: u128,
    /// Opaque reference to the custody account holding this deal's funds;
    /// the engine authorizes outbound moves from this account alone.
    pub custody_handle: u128,
    /// The exact escrowed quantity; immutable once funded except to zero on
    /// terminal payout.
    pub amount: u64,
    /// Fee in basis points, validated to at most 10000 at creation and
    /// informational to this core.
    pub fee_bps: u16,
    /// Lifecycle position.
    pub status: EscrowStatus,
    /// The accepted resolution, `Pending` until one is accepted.
    pub verdict: Verdict,
    /// Anti-replay counter, incremented exactly once per accepted resolution.
    pub nonce: u64,
    /// When the record was created.
    pub created_at: i64,
    /// Last instant at which a dispute may be opened; zero for no deadline.
    pub dispute_by: i64,
}

impl EscrowStatus {
    /// Position of a status along the lifecycle; transitions never decrease it.
    pub open spec fn rank(self) -> int {
        match self {
            EscrowStatus::Init => 0,
            EscrowStatus::Funded => 1,
            EscrowStatus::Disputed => 2,
            EscrowStatus::Resolved => 3,
            EscrowStatus::Released => 4,
            EscrowStatus::Refunded => 4,
        }
    }

    /// Whether no transition out of this status is ever valid.
    pub open spec fn is_terminal(self) -> bool {
        self == EscrowStatus::Released || self == EscrowStatus::Refunded
    }
}

impl EscrowState {
    /// The record invariant: established at initiation and preserved by every
    /// transition.
    ///
    /// The fee stays in range; the amount is non-zero exactly while the deal
    /// is live and zero once paid out; the verdict is `Pending` until a
    /// resolution is accepted and afterwards matches the payout taken.
    pub open spec fn wf(self) -> bool {
        &&& self.fee_bps <= 10000
        &&& self.status.is_terminal() <==> self.amount == 0
        &&& match self.status {
            EscrowStatus::Init => self.verdict == Verdict::Pending,
            EscrowStatus::Funded => self.verdict == Verdict::Pending,
            EscrowStatus::Disputed => self.verdict == Verdict::Pending,
            EscrowStatus::Resolved => self.verdict != Verdict::Pending,
            EscrowStatus::Released => self.verdict == Verdict::Release,
            EscrowStatus::Refunded => self.verdict == Verdict::Refund,
        }
    }

    /// Runtime mirror of [`EscrowState::wf`], so unverified callers can test
    /// the invariant before handing a record to the engine.
    pub fn is_well_formed(&self) -> (b: bool)
        ensures
            b == self.wf(),
    {
        let fee_ok: bool = self.fee_bps <= 10000;
        let terminal: bool = matches!(self.status, EscrowStatus::Released | EscrowStatus::Refunded);
        let amount_ok: bool = terminal == (self.amount == 0);
        let verdict_ok: bool = match self.status {
            EscrowStatus::Init => matches!(self.verdict, Verdict::Pending),
            EscrowStatus::Funded => matches!(self.verdict, Verdict::Pending),
            EscrowStatus::Disputed => matches!(self.verdict, Verdict::Pending),
            EscrowStatus::Resolved => !matches!(self.verdict, Verdict::Pending),
            EscrowStatus::Released => matches!(self.verdict, Verdict::Release),
            EscrowStatus::Refunded => matches!(self.verdict, Verdict::Refund),
        };
        fee_ok && amount_ok && verdict_ok
    }

    /// Bytes the host ledger reserves for one serialized record: an 8-byte
    /// account tag, six 16-byte keys, the 8-byte amount, 2-byte fee, one byte
    /// each for status and verdict, and the 8-byte nonce and two timestamps.
    pub fn space() -> (n: usize)
        ensures
            n == 140,
    {
        8 + (6 * 16) + 8 + 2 + 1 + 1 + 8 + 8 + 8
    }
}

/// `s` with its status replaced and everything else kept.
pub open spec fn with_status(s: EscrowState, status: EscrowStatus) -> EscrowState {
    EscrowState { status, ..s }
}

/// `s` after a resolution with verdict `v` was accepted: status `Resolved`,
/// the nonce advanced by exactly one, the verdict recorded.
pub open spec fn resolved_record(s: EscrowState, v: Verdict) -> EscrowState {
    EscrowState { status: EscrowStatus::Resolved, nonce: (s.nonce + 1) as u64, verdict: v, ..s }
}

/// `s` after a terminal payout: the amount consumed to zero and the given
/// terminal status recorded.
pub open spec fn paid_out(s: EscrowState, status: EscrowStatus) -> EscrowState {
    EscrowState { status, amount: 0u64, ..s }
}

} // verus!
