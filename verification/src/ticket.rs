use vstd::prelude::*;

use crate::errors::EscrowError;
use crate::state::Verdict;

verus! {

/// A single-use, time-bounded resolution instruction issued off-ledger by the
/// arbiter.
///
/// The ticket binds one deal, one nonce value, an expiry instant, and a
/// payout split. Its byte serialization is signed by the arbiter's key; the
/// host checks that signature and hands the outcome to the engine, which
/// performs every other check itself.
#[derive(Clone, Copy, Debug, PartialEq, Eq, Structural)]
pub struct ResolveTicket {
    /// The deal the ticket resolves.
    pub deal_id: u128,
    /// The record nonce the ticket was issued against; the ticket is valid
    /// for exactly this nonce value and for no other.
    pub escrow_state_nonce: u64,
    /// Last instant at which the ticket may be accepted.
    pub expires_at: i64,
    /// Percentage of custody paid to the buyer.
    pub buyer_pct: u8,
    /// Percentage of custody paid to the seller.
    pub seller_pct: u8,
}

/// The verdict a ticket's split describes, if this core supports it: the
/// binary payouts (everything to one side) are mandatory here, while weighted
/// splits are left to a separate extension and produce no verdict.
pub open spec fn ticket_verdict(t: ResolveTicket) -> Option<Verdict> {
    if t.seller_pct == 100 && t.buyer_pct == 0 {
        Some(Verdict::Release)
    } else if t.seller_pct == 0 && t.buyer_pct == 100 {
        Some(Verdict::Refund)
    } else {
        None
    }
}

/// The verifier's decision on a ticket, checked in this order and stopping at
/// the first failure: the deal must match, the nonce must match (the
/// anti-replay check), the ticket must not have expired, the split must sum
/// to one hundred — all before the signature is even consulted — and the
/// signature must verify. A ticket that passes every check but carries a
/// weighted split this core does not pay is likewise rejected as
/// `InvalidSplit`.
pub open spec fn ticket_outcome(
    t: ResolveTicket,
    deal_id: u128,
    nonce: u64,
    now: i64,
    sig_valid: bool,
) -> Result<Verdict, EscrowError> {
    if t.deal_id != deal_id {
        Err(EscrowError::TicketMismatch)
    } else if t.escrow_state_nonce != nonce {
        Err(EscrowError::StaleTicket)
    } else if now > t.expires_at {
        Err(EscrowError::ExpiredTicket)
    } else if t.seller_pct + t.buyer_pct != 100 {
        Err(EscrowError::InvalidSplit)
    } else {
        match ticket_verdict(t) {
            Some(v) => if sig_valid {
                Ok(v)
            } else {
                Err(EscrowError::SignatureInvalid)
            },
            None => if sig_valid {
                Err(EscrowError::InvalidSplit)
            } else {
                Err(EscrowError::SignatureInvalid)
            },
        }
    }
}

impl ResolveTicket {
    /// The structural checks of the verifier as one predicate: the ticket
    /// names this deal, was issued against exactly this nonce, has not
    /// expired at `now`, and splits the payout into percentages that sum to
    /// one hundred. Signature verification is the host's and is not part of
    /// this predicate.
    pub fn validate(&self, deal_id: u128, nonce: u64, now: i64) -> (ok: bool)
        ensures
            ok == (self.deal_id == deal_id && self.escrow_state_nonce == nonce
                && now <= self.expires_at && self.seller_pct + self.buyer_pct == 100),
    {
        if self.deal_id != deal_id {
            return false;
        }
        if self.escrow_state_nonce != nonce {
            return false;
        }
        if now > self.expires_at {
            return false;
        }
        if (self.buyer_pct as u16) + (self.seller_pct as u16) != 100 {
            return false;
        }
        true
    }
}

/// Run the full verifier against a record's identity, nonce, and the current
/// time, with `sig_valid` the host's answer on the arbiter signature over the
/// ticket bytes. Returns the verdict the ticket produces, or the first check
/// that failed.
pub fn verify_ticket(
    t: &ResolveTicket,
    deal_id: u128,
    nonce: u64,
    now: i64,
    sig_valid: bool,
) -> (r: Result<Verdict, EscrowError>)
    ensures
        r == ticket_outcome(*t, deal_id, nonce, now, sig_valid),
{
    if t.deal_id != deal_id {
        return Err(EscrowError::TicketMismatch);
    }
    if t.escrow_state_nonce != nonce {
        return Err(EscrowError::StaleTicket);
    }
    if now > t.expires_at {
        return Err(EscrowError::ExpiredTicket);
    }
    if (t.seller_pct as u16) + (t.buyer_pct as u16) != 100 {
        return Err(EscrowError::InvalidSplit);
    }
    if !sig_valid {
        return Err(EscrowError::SignatureInvalid);
    }
    if t.seller_pct == 100 && t.buyer_pct == 0 {
        Ok(Verdict::Release)
    } else if t.seller_pct == 0 && t.buyer_pct == 100 {
        Ok(Verdict::Refund)
    } else {
        Err(EscrowError::InvalidSplit)
    }
}

} // verus!
