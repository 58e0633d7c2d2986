use vstd::prelude::*;

use crate::custody::{credited, debited, CustodyAccount};
use crate::engine::{
    fund_error, open_dispute_error, refund_error, release_error, resolve_error,
};
use crate::errors::EscrowError;
use crate::state::{paid_out, resolved_record, with_status, EscrowState, EscrowStatus, Verdict};
use crate::ticket::{ticket_outcome, ResolveTicket};

verus! {

/// Everything one deal can touch: its record, the buyer's account, the
/// deal's custody account, and the seller's account. The lemmas below state
/// what any sequence of successful transitions does to such a world.
pub struct DealWorld {
    pub record: EscrowState,
    pub buyer_acct: CustodyAccount,
    pub custody_acct: CustodyAccount,
    pub seller_acct: CustodyAccount,
}

/// The asset quantity held across the three accounts of the world.
pub open spec fn total_assets(w: DealWorld) -> int {
    w.buyer_acct.balance + w.custody_acct.balance + w.seller_acct.balance
}

/// A successful `fund` call by `caller` took `pre` to `post`.
pub open spec fn fund_step(pre: DealWorld, post: DealWorld, caller: u128) -> bool {
    &&& pre.custody_acct.owner == pre.record.custody_handle
    &&& fund_error(pre.record, caller, pre.buyer_acct, pre.custody_acct) is None
    &&& post.record == with_status(pre.record, EscrowStatus::Funded)
    &&& post.buyer_acct == debited(pre.buyer_acct, pre.record.amount)
    &&& post.custody_acct == credited(pre.custody_acct, pre.record.amount)
    &&& post.seller_acct == pre.seller_acct
}

/// A successful `open_dispute` call by `caller` at `now` took `pre` to `post`.
pub open spec fn dispute_step(pre: DealWorld, post: DealWorld, caller: u128, now: i64) -> bool {
    &&& open_dispute_error(pre.record, caller, now) is None
    &&& post.record == with_status(pre.record, EscrowStatus::Disputed)
    &&& post.buyer_acct == pre.buyer_acct
    &&& post.custody_acct == pre.custody_acct
    &&& post.seller_acct == pre.seller_acct
}

/// A successful `resolve` call by `caller` with ticket `t` at `now` took
/// `pre` to `post`.
pub open spec fn resolve_step(
    pre: DealWorld,
    post: DealWorld,
    caller: u128,
    t: ResolveTicket,
    now: i64,
    sig_valid: bool,
) -> bool {
    &&& resolve_error(pre.record, caller, t, now, sig_valid) is None
    &&& post.record == resolved_record(
        pre.record,
        ticket_outcome(t, pre.record.deal_id, pre.record.nonce, now, sig_valid)->Ok_0,
    )
    &&& post.buyer_acct == pre.buyer_acct
    &&& post.custody_acct == pre.custody_acct
    &&& post.seller_acct == pre.seller_acct
}

/// A successful `release` call by `caller` took `pre` to `post`.
pub open spec fn release_step(pre: DealWorld, post: DealWorld, caller: u128) -> bool {
    &&& pre.custody_acct.owner == pre.record.custody_handle
    &&& release_error(pre.record, caller, pre.custody_acct, pre.seller_acct) is None
    &&& post.record == paid_out(pre.record, EscrowStatus::Released)
    &&& post.buyer_acct == pre.buyer_acct
    &&& post.custody_acct == debited(pre.custody_acct, pre.record.amount)
    &&& post.seller_acct == credited(pre.seller_acct, pre.record.amount)
}

/// A successful `refund` call by `caller` took `pre` to `post`.
pub open spec fn refund_step(pre: DealWorld, post: DealWorld, caller: u128) -> bool {
    &&& pre.custody_acct.owner == pre.record.custody_handle
    &&& refund_error(pre.record, caller, pre.custody_acct, pre.buyer_acct) is None
    &&& post.record == paid_out(pre.record, EscrowStatus::Refunded)
    &&& post.buyer_acct == credited(pre.buyer_acct, pre.record.amount)
    &&& post.custody_acct == debited(pre.custody_acct, pre.record.amount)
    &&& post.seller_acct == pre.seller_acct
}

/// Some transition of a live deal succeeded and took `pre` to `post`. This
/// is exactly the relation the engine's postconditions establish on success.
pub open spec fn step(pre: DealWorld, post: DealWorld) -> bool {
    ||| exists|caller: u128| fund_step(pre, post, caller)
    ||| exists|caller: u128, now: i64| dispute_step(pre, post, caller, now)
    ||| exists|caller: u128, t: ResolveTicket, now: i64, sig_valid: bool|
        resolve_step(pre, post, caller, t, now, sig_valid)
    ||| exists|caller: u128| release_step(pre, post, caller)
    ||| exists|caller: u128| refund_step(pre, post, caller)
}

/// A trace of worlds in which every consecutive pair is related by a
/// successful transition.
pub open spec fn valid_trace(tr: Seq<DealWorld>) -> bool {
    forall|i: int| 0 <= i < tr.len() - 1 ==> #[trigger] step(tr[i], tr[i + 1])
}

/// Conservation, one step: no successful transition creates or destroys any
/// quantity of the asset — funds only ever move between the buyer's account,
/// custody, and the seller's account.
pub proof fn lemma_step_conserves_assets(pre: DealWorld, post: DealWorld)
    requires
        step(pre, post),
    ensures
        total_assets(post) == total_assets(pre),
{
}

/// Conservation: across every sequence of successful transitions, the sum of
/// the buyer's, custody's, and the seller's balances is invariant.
pub proof fn lemma_conservation(tr: Seq<DealWorld>)
    requires
        tr.len() >= 1,
        valid_trace(tr),
    ensures
        total_assets(tr[tr.len() - 1]) == total_assets(tr[0]),
    decreases tr.len(),
{
    if tr.len() > 1 {
        let prefix = tr.drop_last();
        assert(valid_trace(prefix)) by {
            assert forall|i: int| 0 <= i < prefix.len() - 1 implies #[trigger] step(
                prefix[i],
                prefix[i + 1],
            ) by {
                assert(step(tr[i], tr[i + 1]));
            }
        }
        lemma_conservation(prefix);
        let j: int = tr.len() - 2;
        assert(step(tr[j], tr[j + 1]));
        lemma_step_conserves_assets(tr[j], tr[j + 1]);
    }
}

/// Monotonic status, one step: no successful transition moves the status
/// backwards along `Init < Funded < Disputed/Resolved < Released/Refunded`.
pub proof fn lemma_step_status_monotonic(pre: DealWorld, post: DealWorld)
    requires
        step(pre, post),
    ensures
        post.record.status.rank() >= pre.record.status.rank(),
{
}

/// Monotonic status across every sequence of successful transitions.
pub proof fn lemma_status_monotonic(tr: Seq<DealWorld>)
    requires
        tr.len() >= 1,
        valid_trace(tr),
    ensures
        tr[tr.len() - 1].record.status.rank() >= tr[0].record.status.rank(),
    decreases tr.len(),
{
    if tr.len() > 1 {
        let prefix = tr.drop_last();
        assert(valid_trace(prefix)) by {
            assert forall|i: int| 0 <= i < prefix.len() - 1 implies #[trigger] step(
                prefix[i],
                prefix[i + 1],
            ) by {
                assert(step(tr[i], tr[i + 1]));
            }
        }
        lemma_status_monotonic(prefix);
        let j: int = tr.len() - 2;
        assert(step(tr[j], tr[j + 1]));
        lemma_step_status_monotonic(tr[j], tr[j + 1]);
    }
}

/// The record invariant holds after every successful transition; the nonce
/// never decreases and never skips, advancing by exactly one on a resolution
/// and untouched by everything else; and a verdict, once set, is never set
/// to anything else.
pub proof fn lemma_step_preserves_wf(pre: DealWorld, post: DealWorld)
    requires
        step(pre, post),
        pre.record.wf(),
    ensures
        post.record.wf(),
        pre.record.nonce <= post.record.nonce <= pre.record.nonce + 1,
        pre.record.verdict != Verdict::Pending ==> post.record.verdict == pre.record.verdict,
{
}

/// No transition out of a terminal state is ever valid: a deal that stands
/// `Released` or `Refunded` admits no further successful step.
pub proof fn lemma_no_step_from_terminal(pre: DealWorld, post: DealWorld)
    requires
        step(pre, post),
    ensures
        !pre.record.status.is_terminal(),
{
}

/// No double payout: once a `release` has succeeded, any further `release`
/// on the deal — by the seller itself, with any accounts — fails with
/// `InvalidState`, because the record now stands terminal in `Released`.
pub proof fn lemma_no_double_release(
    pre: DealWorld,
    post: DealWorld,
    caller: u128,
    again: u128,
    custody_acct: CustodyAccount,
    seller_acct: CustodyAccount,
)
    requires
        release_step(pre, post, caller),
        again == post.record.seller,
        seller_acct.owner == again,
    ensures
        release_error(post.record, again, custody_acct, seller_acct) == Some(
            EscrowError::InvalidState,
        ),
{
}

/// Replay rejection: once a `resolve` has accepted ticket `t`, replaying the
/// very same ticket against the deal fails the verifier with `StaleTicket`,
/// whatever the time and whatever the signature check says, because the
/// accepted resolution advanced the nonce past the one the ticket binds.
pub proof fn lemma_replay_rejected(
    pre: DealWorld,
    post: DealWorld,
    caller: u128,
    t: ResolveTicket,
    now: i64,
    sig_valid: bool,
    later: i64,
    sig_again: bool,
)
    requires
        resolve_step(pre, post, caller, t, now, sig_valid),
    ensures
        ticket_outcome(t, post.record.deal_id, post.record.nonce, later, sig_again) == Err::<
            Verdict,
            EscrowError,
        >(EscrowError::StaleTicket),
{
}

/// Split sum: a ticket whose percentages do not sum to one hundred never
/// verifies, whatever the signature check says; and when it names the right
/// deal and nonce and has not expired, the failure is precisely
/// `InvalidSplit` — the signature is never even consulted.
pub proof fn lemma_bad_split_rejected(
    t: ResolveTicket,
    deal_id: u128,
    nonce: u64,
    now: i64,
    sig_valid: bool,
)
    requires
        t.seller_pct + t.buyer_pct != 100,
    ensures
        ticket_outcome(t, deal_id, nonce, now, sig_valid) is Err,
        (t.deal_id == deal_id && t.escrow_state_nonce == nonce && now <= t.expires_at)
            ==> ticket_outcome(t, deal_id, nonce, now, sig_valid) == Err::<Verdict, EscrowError>(
            EscrowError::InvalidSplit,
        ),
{
}

} // verus!
