use vstd::prelude::*;

use crate::custody::{credited, custody_move, debited, move_error, CustodyAccount};
use crate::errors::EscrowError;
use crate::events::{
    DealDisputed, DealFunded, DealInitiated, DealRefunded, DealReleased, DealResolved,
};
use crate::guards::{authorize, authorized, check_deadline, deadline_ok, Operation};
use crate::state::{paid_out, resolved_record, with_status, EscrowState, EscrowStatus, Verdict};
use crate::ticket::{ticket_outcome, verify_ticket, ResolveTicket};
use crate::utils::assert_nonzero;

verus! {

// Every transition evaluates its guards fully before any mutation and makes
// its single custody move, where one exists, as the last fallible step; the
// status and amount writes that follow cannot fail. A call that reports an
// error therefore leaves the record and every custody balance exactly as it
// found them, and the `*_error` spec function of each transition names the
// first guard that fails, so each failure mode is owed if and only if its
// condition holds.

/// The first reason `initiate` rejects its arguments, or `None`: only the
/// prospective seller creates a deal, the escrowed amount must be positive,
/// and the fee must be at most ten thousand basis points.
pub open spec fn initiate_error(caller: u128, seller: u128, amount: u64, fee_bps: u16) -> Option<
    EscrowError,
> {
    if caller != seller {
        Some(EscrowError::Unauthorized)
    } else if amount == 0 {
        Some(EscrowError::InvalidAmount)
    } else if fee_bps > 10000 {
        Some(EscrowError::InvalidFee)
    } else {
        None
    }
}

/// The record `initiate` creates: status `Init`, nonce zero, verdict pending,
/// every key and bound recorded as given.
pub open spec fn initial_record(
    deal_id: u128,
    seller: u128,
    buyer: u128,
    arbiter: u128,
    asset_class: u128,
    custody_handle: u128,
    amount: u64,
    fee_bps: u16,
    now: i64,
    dispute_by: i64,
) -> EscrowState {
    EscrowState {
        deal_id,
        seller,
        buyer,
        arbiter,
        asset_class,
        custody_handle,
        amount,
        fee_bps,
        status: EscrowStatus::Init,
        verdict: Verdict::Pending,
        nonce: 0,
        created_at: now,
        dispute_by,
    }
}

/// Create a deal record.
///
/// The host supplies the identities, the asset class, the handle of the
/// freshly allocated custody account, and the current time `now`; no funds
/// move. On success the new record is well formed and is returned together
/// with the event to emit.
pub fn initiate(
    caller: u128,
    deal_id: u128,
    seller: u128,
    buyer: u128,
    arbiter: u128,
    asset_class: u128,
    custody_handle: u128,
    amount: u64,
    fee_bps: u16,
    dispute_by: i64,
    now: i64,
) -> (r: Result<(EscrowState, DealInitiated), EscrowError>)
    ensures
        r is Ok <==> initiate_error(caller, seller, amount, fee_bps) is None,
        r matches Err(e) ==> initiate_error(caller, seller, amount, fee_bps) == Some(e),
        r matches Ok(p) ==> p.0 == initial_record(
            deal_id,
            seller,
            buyer,
            arbiter,
            asset_class,
            custody_handle,
            amount,
            fee_bps,
            now,
            dispute_by,
        ),
        r matches Ok(p) ==> p.0.wf(),
        r matches Ok(p) ==> p.1 == (DealInitiated { deal_id, seller, buyer, asset_class, amount }),
{
    let record = EscrowState {
        deal_id,
        seller,
        buyer,
        arbiter,
        asset_class,
        custody_handle,
        amount,
        fee_bps,
        status: EscrowStatus::Init,
        verdict: Verdict::Pending,
        nonce: 0,
        created_at: now,
        dispute_by,
    };
    if !authorize(&record, caller, Operation::Initiate) {
        return Err(EscrowError::Unauthorized);
    }
    if amount == 0 {
        return Err(EscrowError::InvalidAmount);
    }
    if fee_bps > 10000 {
        return Err(EscrowError::InvalidFee);
    }
    let event = DealInitiated { deal_id, seller, buyer, asset_class, amount };
    Ok((record, event))
}

/// The first reason `fund` fails on this record and these accounts, or
/// `None`: the caller must be the buyer and own the paying account, the deal
/// must still be in `Init` with a positive amount, and the custody move
/// itself must go through.
pub open spec fn fund_error(
    s: EscrowState,
    caller: u128,
    buyer_acct: CustodyAccount,
    custody_acct: CustodyAccount,
) -> Option<EscrowError> {
    if !authorized(s, caller, Operation::Fund) {
        Some(EscrowError::Unauthorized)
    } else if buyer_acct.owner != caller {
        Some(EscrowError::Unauthorized)
    } else if s.status != EscrowStatus::Init {
        Some(EscrowError::InvalidState)
    } else if s.amount == 0 {
        Some(EscrowError::InsufficientFunds)
    } else {
        move_error(buyer_acct, custody_acct, s.asset_class, s.amount)
    }
}

/// Fund the deal: move exactly the escrowed amount from the buyer's account
/// into custody and advance the status from `Init` to `Funded`, atomically.
///
/// On any failure the record and both balances are unchanged; in every
/// outcome the two balances sum to what they summed to before.
pub fn fund(
    state: &mut EscrowState,
    caller: u128,
    buyer_acct: &mut CustodyAccount,
    custody_acct: &mut CustodyAccount,
) -> (r: Result<DealFunded, EscrowError>)
    requires
        old(custody_acct).owner == old(state).custody_handle,
    ensures
        r is Ok <==> fund_error(*old(state), caller, *old(buyer_acct), *old(custody_acct)) is None,
        r matches Err(e) ==> fund_error(*old(state), caller, *old(buyer_acct), *old(custody_acct))
            == Some(e) && *final(state) == *old(state) && *final(buyer_acct) == *old(buyer_acct)
            && *final(custody_acct) == *old(custody_acct),
        r is Ok ==> *final(state) == with_status(*old(state), EscrowStatus::Funded)
            && *final(buyer_acct) == debited(*old(buyer_acct), old(state).amount)
            && *final(custody_acct) == credited(*old(custody_acct), old(state).amount),
        r matches Ok(ev) ==> ev == (DealFunded {
            deal_id: old(state).deal_id,
            buyer: old(state).buyer,
            amount: old(state).amount,
        }),
        final(buyer_acct).balance + final(custody_acct).balance == old(buyer_acct).balance
            + old(custody_acct).balance,
        final(state).status.rank() >= old(state).status.rank(),
        old(state).wf() ==> final(state).wf(),
{
    if !authorize(state, caller, Operation::Fund) {
        return Err(EscrowError::Unauthorized);
    }
    if buyer_acct.owner != caller {
        return Err(EscrowError::Unauthorized);
    }
    if !matches!(state.status, EscrowStatus::Init) {
        return Err(EscrowError::InvalidState);
    }
    let amount: u64 = state.amount;
    if let Err(e) = assert_nonzero(amount) {
        return Err(e);
    }
    match custody_move(buyer_acct, custody_acct, state.asset_class, amount) {
        Err(e) => Err(e),
        Ok(()) => {
            state.status = EscrowStatus::Funded;
            Ok(DealFunded { deal_id: state.deal_id, buyer: state.buyer, amount })
        },
    }
}

/// The first reason `open_dispute` fails, or `None`: only a transacting
/// party may dispute, only a `Funded` deal can be disputed, and the dispute
/// window must still be open at `now`.
pub open spec fn open_dispute_error(s: EscrowState, caller: u128, now: i64) -> Option<
    EscrowError,
> {
    if !authorized(s, caller, Operation::OpenDispute) {
        Some(EscrowError::Unauthorized)
    } else if s.status != EscrowStatus::Funded {
        Some(EscrowError::InvalidState)
    } else if !deadline_ok(s, now) {
        Some(EscrowError::DeadlinePassed)
    } else {
        None
    }
}

/// Open a dispute: advance the status from `Funded` to `Disputed`. No funds
/// move, and a failing call leaves the record unchanged.
pub fn open_dispute(state: &mut EscrowState, caller: u128, now: i64) -> (r: Result<
    DealDisputed,
    EscrowError,
>)
    ensures
        r is Ok <==> open_dispute_error(*old(state), caller, now) is None,
        r matches Err(e) ==> open_dispute_error(*old(state), caller, now) == Some(e)
            && *final(state) == *old(state),
        r is Ok ==> *final(state) == with_status(*old(state), EscrowStatus::Disputed),
        r matches Ok(ev) ==> ev == (DealDisputed { deal_id: old(state).deal_id, by: caller }),
        final(state).status.rank() >= old(state).status.rank(),
        old(state).wf() ==> final(state).wf(),
{
    if !authorize(state, caller, Operation::OpenDispute) {
        return Err(EscrowError::Unauthorized);
    }
    if !matches!(state.status, EscrowStatus::Funded) {
        return Err(EscrowError::InvalidState);
    }
    if !check_deadline(state, now) {
        return Err(EscrowError::DeadlinePassed);
    }
    state.status = EscrowStatus::Disputed;
    Ok(DealDisputed { deal_id: state.deal_id, by: caller })
}

/// The first reason `resolve` fails, or `None`: only the arbiter resolves, a
/// deal resolves from `Funded` or `Disputed` alone, the ticket must pass
/// every check of the verifier against this record and `now`, and the nonce
/// must have room to advance.
pub open spec fn resolve_error(
    s: EscrowState,
    caller: u128,
    t: ResolveTicket,
    now: i64,
    sig_valid: bool,
) -> Option<EscrowError> {
    if !authorized(s, caller, Operation::Resolve) {
        Some(EscrowError::Unauthorized)
    } else if s.status != EscrowStatus::Funded && s.status != EscrowStatus::Disputed {
        Some(EscrowError::InvalidState)
    } else {
        match ticket_outcome(t, s.deal_id, s.nonce, now, sig_valid) {
            Err(e) => Some(e),
            Ok(_) => if s.nonce == u64::MAX {
                Some(EscrowError::ArithmeticOverflow)
            } else {
                None
            },
        }
    }
}

/// Accept a resolution ticket: set the status to `Resolved`, record the
/// verdict the ticket produced, and advance the nonce by exactly one — which
/// permanently invalidates the accepted ticket, since a replay then fails the
/// verifier's nonce check. The whole call fails with no state change if any
/// precondition or any ticket check fails. No funds move.
pub fn resolve(
    state: &mut EscrowState,
    caller: u128,
    ticket: &ResolveTicket,
    now: i64,
    sig_valid: bool,
) -> (r: Result<DealResolved, EscrowError>)
    ensures
        r is Ok <==> resolve_error(*old(state), caller, *ticket, now, sig_valid) is None,
        r matches Err(e) ==> resolve_error(*old(state), caller, *ticket, now, sig_valid) == Some(e)
            && *final(state) == *old(state),
        r is Ok ==> *final(state) == resolved_record(
            *old(state),
            ticket_outcome(*ticket, old(state).deal_id, old(state).nonce, now, sig_valid)->Ok_0,
        ),
        r is Ok ==> final(state).nonce == old(state).nonce + 1,
        r matches Ok(ev) ==> ev == (DealResolved {
            deal_id: old(state).deal_id,
            verdict: final(state).verdict,
        }),
        final(state).status.rank() >= old(state).status.rank(),
        old(state).wf() ==> final(state).wf(),
{
    if !authorize(state, caller, Operation::Resolve) {
        return Err(EscrowError::Unauthorized);
    }
    if !matches!(state.status, EscrowStatus::Funded | EscrowStatus::Disputed) {
        return Err(EscrowError::InvalidState);
    }
    let verdict: Verdict = match verify_ticket(ticket, state.deal_id, state.nonce, now, sig_valid) {
        Err(e) => {
            return Err(e);
        },
        Ok(v) => v,
    };
    let next_nonce: u64 = match state.nonce.checked_add(1) {
        Some(n) => n,
        None => {
            return Err(EscrowError::ArithmeticOverflow);
        },
    };
    state.status = EscrowStatus::Resolved;
    state.nonce = next_nonce;
    state.verdict = verdict;
    Ok(DealResolved { deal_id: state.deal_id, verdict })
}

/// The first reason `release` fails, or `None`: only the seller collects a
/// release, into an account it owns, from a deal that stands `Resolved` with
/// the `Release` verdict and a positive amount, and the custody move itself
/// must go through.
pub open spec fn release_error(
    s: EscrowState,
    caller: u128,
    custody_acct: CustodyAccount,
    seller_acct: CustodyAccount,
) -> Option<EscrowError> {
    if !authorized(s, caller, Operation::Release) {
        Some(EscrowError::Unauthorized)
    } else if seller_acct.owner != caller {
        Some(EscrowError::Unauthorized)
    } else if s.status != EscrowStatus::Resolved {
        Some(EscrowError::InvalidState)
    } else if s.verdict != Verdict::Release {
        Some(EscrowError::InvalidState)
    } else if s.amount == 0 {
        Some(EscrowError::InsufficientFunds)
    } else {
        move_error(custody_acct, seller_acct, s.asset_class, s.amount)
    }
}

/// Pay the deal out to the seller: move exactly the escrowed amount from
/// custody to the seller's account, zero the amount, and end in `Released`,
/// atomically. Re-invoking a completed payout fails with `InvalidState` and
/// moves nothing.
pub fn release(
    state: &mut EscrowState,
    caller: u128,
    custody_acct: &mut CustodyAccount,
    seller_acct: &mut CustodyAccount,
) -> (r: Result<DealReleased, EscrowError>)
    requires
        old(custody_acct).owner == old(state).custody_handle,
    ensures
        r is Ok <==> release_error(*old(state), caller, *old(custody_acct), *old(seller_acct))
            is None,
        r matches Err(e) ==> release_error(
            *old(state),
            caller,
            *old(custody_acct),
            *old(seller_acct),
        ) == Some(e) && *final(state) == *old(state) && *final(custody_acct) == *old(custody_acct)
            && *final(seller_acct) == *old(seller_acct),
        r is Ok ==> *final(state) == paid_out(*old(state), EscrowStatus::Released)
            && *final(custody_acct) == debited(*old(custody_acct), old(state).amount)
            && *final(seller_acct) == credited(*old(seller_acct), old(state).amount),
        r matches Ok(ev) ==> ev == (DealReleased {
            deal_id: old(state).deal_id,
            amount: old(state).amount,
        }),
        final(custody_acct).balance + final(seller_acct).balance == old(custody_acct).balance
            + old(seller_acct).balance,
        final(state).status.rank() >= old(state).status.rank(),
        old(state).wf() ==> final(state).wf(),
{
    if !authorize(state, caller, Operation::Release) {
        return Err(EscrowError::Unauthorized);
    }
    if seller_acct.owner != caller {
        return Err(EscrowError::Unauthorized);
    }
    if !matches!(state.status, EscrowStatus::Resolved) {
        return Err(EscrowError::InvalidState);
    }
    if !matches!(state.verdict, Verdict::Release) {
        return Err(EscrowError::InvalidState);
    }
    let amount: u64 = state.amount;
    if let Err(e) = assert_nonzero(amount) {
        return Err(e);
    }
    match custody_move(custody_acct, seller_acct, state.asset_class, amount) {
        Err(e) => Err(e),
        Ok(()) => {
            state.amount = 0;
            state.status = EscrowStatus::Released;
            Ok(DealReleased { deal_id: state.deal_id, amount })
        },
    }
}

/// The first reason `refund` fails, or `None`: symmetric to `release`, with
/// the buyer collecting under the `Refund` verdict.
pub open spec fn refund_error(
    s: EscrowState,
    caller: u128,
    custody_acct: CustodyAccount,
    buyer_acct: CustodyAccount,
) -> Option<EscrowError> {
    if !authorized(s, caller, Operation::Refund) {
        Some(EscrowError::Unauthorized)
    } else if buyer_acct.owner != caller {
        Some(EscrowError::Unauthorized)
    } else if s.status != EscrowStatus::Resolved {
        Some(EscrowError::InvalidState)
    } else if s.verdict != Verdict::Refund {
        Some(EscrowError::InvalidState)
    } else if s.amount == 0 {
        Some(EscrowError::InsufficientFunds)
    } else {
        move_error(custody_acct, buyer_acct, s.asset_class, s.amount)
    }
}

/// Pay the deal back to the buyer: move exactly the escrowed amount from
/// custody to the buyer's account, zero the amount, and end in `Refunded`,
/// atomically. Re-invoking a completed payout fails with `InvalidState` and
/// moves nothing.
pub fn refund(
    state: &mut EscrowState,
    caller: u128,
    custody_acct: &mut CustodyAccount,
    buyer_acct: &mut CustodyAccount,
) -> (r: Result<DealRefunded, EscrowError>)
    requires
        old(custody_acct).owner == old(state).custody_handle,
    ensures
        r is Ok <==> refund_error(*old(state), caller, *old(custody_acct), *old(buyer_acct))
            is None,
        r matches Err(e) ==> refund_error(
            *old(state),
            caller,
            *old(custody_acct),
            *old(buyer_acct),
        ) == Some(e) && *final(state) == *old(state) && *final(custody_acct) == *old(custody_acct)
            && *final(buyer_acct) == *old(buyer_acct),
        r is Ok ==> *final(state) == paid_out(*old(state), EscrowStatus::Refunded)
            && *final(custody_acct) == debited(*old(custody_acct), old(state).amount)
            && *final(buyer_acct) == credited(*old(buyer_acct), old(state).amount),
        r matches Ok(ev) ==> ev == (DealRefunded {
            deal_id: old(state).deal_id,
            amount: old(state).amount,
        }),
        final(custody_acct).balance + final(buyer_acct).balance == old(custody_acct).balance
            + old(buyer_acct).balance,
        final(state).status.rank() >= old(state).status.rank(),
        old(state).wf() ==> final(state).wf(),
{
    if !authorize(state, caller, Operation::Refund) {
        return Err(EscrowError::Unauthorized);
    }
    if buyer_acct.owner != caller {
        return Err(EscrowError::Unauthorized);
    }
    if !matches!(state.status, EscrowStatus::Resolved) {
        return Err(EscrowError::InvalidState);
    }
    if !matches!(state.verdict, Verdict::Refund) {
        return Err(EscrowError::InvalidState);
    }
    let amount: u64 = state.amount;
    if let Err(e) = assert_nonzero(amount) {
        return Err(e);
    }
    match custody_move(custody_acct, buyer_acct, state.asset_class, amount) {
        Err(e) => Err(e),
        Ok(()) => {
            state.amount = 0;
            state.status = EscrowStatus::Refunded;
            Ok(DealRefunded { deal_id: state.deal_id, amount })
        },
    }
}

} // verus!
