use onchain_escrow::custody::{custody_move, CustodyAccount};
use onchain_escrow::engine::{fund, initiate, open_dispute, refund, release, resolve};
use onchain_escrow::errors::EscrowError;
use onchain_escrow::events::{DealFunded, DealReleased};
use onchain_escrow::state::{EscrowState, EscrowStatus, Verdict};
use onchain_escrow::ticket::{verify_ticket, ResolveTicket};

const SELLER: u128 = 7;
const BUYER: u128 = 8;
const ARBITER: u128 = 9;
const ASSET: u128 = 55;
const VAULT: u128 = 1000;

fn new_deal(amount: u64, fee_bps: u16, dispute_by: i64) -> EscrowState {
    let (state, _event) = initiate(
        SELLER, 1, SELLER, BUYER, ARBITER, ASSET, VAULT, amount, fee_bps, dispute_by, 5,
    )
    .expect("initiation should succeed");
    state
}

fn accounts(buyer_balance: u64) -> (CustodyAccount, CustodyAccount, CustodyAccount) {
    (
        CustodyAccount { owner: BUYER, asset_class: ASSET, balance: buyer_balance },
        CustodyAccount { owner: VAULT, asset_class: ASSET, balance: 0 },
        CustodyAccount { owner: SELLER, asset_class: ASSET, balance: 0 },
    )
}

fn release_ticket(nonce: u64) -> ResolveTicket {
    ResolveTicket {
        deal_id: 1,
        escrow_state_nonce: nonce,
        expires_at: 1000,
        buyer_pct: 0,
        seller_pct: 100,
    }
}

#[test]
fn happy_path_fund_resolve_release() {
    let mut state = new_deal(100, 250, 0);
    assert_eq!(state.status, EscrowStatus::Init);
    assert_eq!(state.nonce, 0);
    assert!(state.is_well_formed());

    let (mut buyer_acct, mut custody_acct, mut seller_acct) = accounts(1000);

    let funded = fund(&mut state, BUYER, &mut buyer_acct, &mut custody_acct)
        .expect("funding should succeed");
    assert_eq!(funded, DealFunded { deal_id: 1, buyer: BUYER, amount: 100 });
    assert_eq!(state.status, EscrowStatus::Funded);
    assert_eq!(buyer_acct.balance, 900);
    assert_eq!(custody_acct.balance, 100);

    let resolved = resolve(&mut state, ARBITER, &release_ticket(0), 10, true)
        .expect("resolution should succeed");
    assert_eq!(resolved.verdict, Verdict::Release);
    assert_eq!(state.status, EscrowStatus::Resolved);
    assert_eq!(state.nonce, 1);
    assert_eq!(state.verdict, Verdict::Release);

    let released = release(&mut state, SELLER, &mut custody_acct, &mut seller_acct)
        .expect("release should succeed");
    assert_eq!(released, DealReleased { deal_id: 1, amount: 100 });
    assert_eq!(state.status, EscrowStatus::Released);
    assert_eq!(state.amount, 0);
    assert_eq!(custody_acct.balance, 0);
    assert_eq!(seller_acct.balance, 100);
    assert!(state.is_well_formed());
}

#[test]
fn refund_path_through_dispute() {
    let mut state = new_deal(100, 250, 5000);
    let (mut buyer_acct, mut custody_acct, _seller_acct) = accounts(1000);

    fund(&mut state, BUYER, &mut buyer_acct, &mut custody_acct).expect("funding should succeed");
    open_dispute(&mut state, BUYER, 4000).expect("dispute within the window should succeed");
    assert_eq!(state.status, EscrowStatus::Disputed);

    let refund_ticket = ResolveTicket {
        deal_id: 1,
        escrow_state_nonce: 0,
        expires_at: 6000,
        buyer_pct: 100,
        seller_pct: 0,
    };
    resolve(&mut state, ARBITER, &refund_ticket, 4500, true)
        .expect("resolution should succeed");
    assert_eq!(state.verdict, Verdict::Refund);

    refund(&mut state, BUYER, &mut custody_acct, &mut buyer_acct)
        .expect("refund should succeed");
    assert_eq!(state.status, EscrowStatus::Refunded);
    assert_eq!(state.amount, 0);
    assert_eq!(buyer_acct.balance, 1000);
    assert_eq!(custody_acct.balance, 0);
    assert!(state.is_well_formed());
}

#[test]
fn conservation_across_every_move() {
    let mut state = new_deal(100, 250, 0);
    let (mut buyer_acct, mut custody_acct, mut seller_acct) = accounts(1000);
    let total = buyer_acct.balance + custody_acct.balance + seller_acct.balance;

    fund(&mut state, BUYER, &mut buyer_acct, &mut custody_acct).expect("funding should succeed");
    assert_eq!(buyer_acct.balance + custody_acct.balance + seller_acct.balance, total);

    resolve(&mut state, ARBITER, &release_ticket(0), 10, true)
        .expect("resolution should succeed");
    assert_eq!(buyer_acct.balance + custody_acct.balance + seller_acct.balance, total);

    release(&mut state, SELLER, &mut custody_acct, &mut seller_acct)
        .expect("release should succeed");
    assert_eq!(buyer_acct.balance + custody_acct.balance + seller_acct.balance, total);
}

#[test]
fn second_release_fails_invalid_state() {
    let mut state = new_deal(100, 250, 0);
    let (mut buyer_acct, mut custody_acct, mut seller_acct) = accounts(1000);
    fund(&mut state, BUYER, &mut buyer_acct, &mut custody_acct).expect("funding should succeed");
    resolve(&mut state, ARBITER, &release_ticket(0), 10, true)
        .expect("resolution should succeed");
    release(&mut state, SELLER, &mut custody_acct, &mut seller_acct)
        .expect("first release should succeed");

    let again = release(&mut state, SELLER, &mut custody_acct, &mut seller_acct);
    assert_eq!(again, Err(EscrowError::InvalidState));
    // Nothing moved the second time.
    assert_eq!(custody_acct.balance, 0);
    assert_eq!(seller_acct.balance, 100);
}

#[test]
fn replayed_ticket_is_stale_after_resolution() {
    let mut state = new_deal(100, 250, 0);
    let (mut buyer_acct, mut custody_acct, _seller_acct) = accounts(1000);
    fund(&mut state, BUYER, &mut buyer_acct, &mut custody_acct).expect("funding should succeed");

    let ticket = release_ticket(0);
    resolve(&mut state, ARBITER, &ticket, 10, true).expect("first use should succeed");
    assert_eq!(state.nonce, 1);

    // The accepted resolution advanced the nonce, so the same ticket now
    // fails the verifier's anti-replay check whatever the time or signature.
    assert_eq!(
        verify_ticket(&ticket, state.deal_id, state.nonce, 10, true),
        Err(EscrowError::StaleTicket)
    );
}

#[test]
fn stale_ticket_before_first_use() {
    let mut state = new_deal(100, 250, 0);
    let (mut buyer_acct, mut custody_acct, _seller_acct) = accounts(1000);
    fund(&mut state, BUYER, &mut buyer_acct, &mut custody_acct).expect("funding should succeed");

    // Issued against nonce 1 while the record still stands at nonce 0.
    let early = release_ticket(1);
    assert_eq!(
        resolve(&mut state, ARBITER, &early, 10, true),
        Err(EscrowError::StaleTicket)
    );
    assert_eq!(state.nonce, 0);
    assert_eq!(state.status, EscrowStatus::Funded);
}

#[test]
fn unauthorized_fund_leaves_custody_empty() {
    let mut state = new_deal(100, 250, 0);
    let (mut buyer_acct, mut custody_acct, _seller_acct) = accounts(1000);

    let outsider: u128 = 42;
    assert_eq!(
        fund(&mut state, outsider, &mut buyer_acct, &mut custody_acct),
        Err(EscrowError::Unauthorized)
    );
    assert_eq!(custody_acct.balance, 0);
    assert_eq!(buyer_acct.balance, 1000);
    assert_eq!(state.status, EscrowStatus::Init);
}

#[test]
fn fund_on_terminal_deal_fails_invalid_state() {
    let mut state = new_deal(100, 250, 0);
    let (mut buyer_acct, mut custody_acct, mut seller_acct) = accounts(1000);
    fund(&mut state, BUYER, &mut buyer_acct, &mut custody_acct).expect("funding should succeed");
    resolve(&mut state, ARBITER, &release_ticket(0), 10, true)
        .expect("resolution should succeed");
    release(&mut state, SELLER, &mut custody_acct, &mut seller_acct)
        .expect("release should succeed");
    assert_eq!(state.status, EscrowStatus::Released);

    assert_eq!(
        fund(&mut state, BUYER, &mut buyer_acct, &mut custody_acct),
        Err(EscrowError::InvalidState)
    );
}

#[test]
fn initiation_rejects_bad_arguments() {
    // Zero amount.
    assert_eq!(
        initiate(SELLER, 1, SELLER, BUYER, ARBITER, ASSET, VAULT, 0, 250, 0, 5),
        Err(EscrowError::InvalidAmount)
    );
    // Fee over ten thousand basis points.
    assert_eq!(
        initiate(SELLER, 1, SELLER, BUYER, ARBITER, ASSET, VAULT, 100, 10001, 0, 5),
        Err(EscrowError::InvalidFee)
    );
    // Only the prospective seller initiates.
    assert_eq!(
        initiate(BUYER, 1, SELLER, BUYER, ARBITER, ASSET, VAULT, 100, 250, 0, 5),
        Err(EscrowError::Unauthorized)
    );
    // The largest fee still in range passes.
    assert!(initiate(SELLER, 1, SELLER, BUYER, ARBITER, ASSET, VAULT, 100, 10000, 0, 5).is_ok());
}

#[test]
fn fund_reports_insufficient_and_mismatched_accounts() {
    let mut state = new_deal(100, 250, 0);

    // Buyer cannot cover the amount.
    let (mut poor_buyer, mut custody_acct, _seller_acct) = accounts(50);
    assert_eq!(
        fund(&mut state, BUYER, &mut poor_buyer, &mut custody_acct),
        Err(EscrowError::InsufficientFunds)
    );
    assert_eq!(poor_buyer.balance, 50);

    // Buyer account holds another asset class.
    let mut wrong_asset = CustodyAccount { owner: BUYER, asset_class: 77, balance: 1000 };
    assert_eq!(
        fund(&mut state, BUYER, &mut wrong_asset, &mut custody_acct),
        Err(EscrowError::AssetMismatch)
    );

    // Buyer account owned by someone else.
    let mut foreign = CustodyAccount { owner: 42, asset_class: ASSET, balance: 1000 };
    assert_eq!(
        fund(&mut state, BUYER, &mut foreign, &mut custody_acct),
        Err(EscrowError::Unauthorized)
    );
    assert_eq!(state.status, EscrowStatus::Init);
}

#[test]
fn fund_reports_overflowing_custody() {
    let mut state = new_deal(100, 250, 0);
    let mut buyer_acct = CustodyAccount { owner: BUYER, asset_class: ASSET, balance: 1000 };
    let mut full_custody = CustodyAccount {
        owner: VAULT,
        asset_class: ASSET,
        balance: u64::MAX - 50,
    };
    assert_eq!(
        fund(&mut state, BUYER, &mut buyer_acct, &mut full_custody),
        Err(EscrowError::ArithmeticOverflow)
    );
    assert_eq!(full_custody.balance, u64::MAX - 50);
    assert_eq!(buyer_acct.balance, 1000);
}

#[test]
fn dispute_deadline_is_enforced() {
    let mut state = new_deal(100, 250, 5000);
    let (mut buyer_acct, mut custody_acct, _seller_acct) = accounts(1000);
    fund(&mut state, BUYER, &mut buyer_acct, &mut custody_acct).expect("funding should succeed");

    // Too late: the window closed at 5000.
    assert_eq!(open_dispute(&mut state, BUYER, 6000), Err(EscrowError::DeadlinePassed));
    assert_eq!(state.status, EscrowStatus::Funded);

    // A stranger may not dispute even in time.
    assert_eq!(open_dispute(&mut state, 42, 4000), Err(EscrowError::Unauthorized));

    // The seller may dispute in time.
    open_dispute(&mut state, SELLER, 4000).expect("dispute within the window should succeed");
    assert_eq!(state.status, EscrowStatus::Disputed);
}

#[test]
fn resolve_guards_caller_status_and_ticket() {
    let mut state = new_deal(100, 250, 0);
    let (mut buyer_acct, mut custody_acct, _seller_acct) = accounts(1000);

    // Not funded yet: resolution is premature even for the arbiter.
    assert_eq!(
        resolve(&mut state, ARBITER, &release_ticket(0), 10, true),
        Err(EscrowError::InvalidState)
    );

    fund(&mut state, BUYER, &mut buyer_acct, &mut custody_acct).expect("funding should succeed");

    // Only the arbiter resolves.
    assert_eq!(
        resolve(&mut state, SELLER, &release_ticket(0), 10, true),
        Err(EscrowError::Unauthorized)
    );

    // Ticket for another deal.
    let foreign_ticket = ResolveTicket { deal_id: 2, ..release_ticket(0) };
    assert_eq!(
        resolve(&mut state, ARBITER, &foreign_ticket, 10, true),
        Err(EscrowError::TicketMismatch)
    );

    // Expired ticket.
    assert_eq!(
        resolve(&mut state, ARBITER, &release_ticket(0), 2000, true),
        Err(EscrowError::ExpiredTicket)
    );

    // Bad signature.
    assert_eq!(
        resolve(&mut state, ARBITER, &release_ticket(0), 10, false),
        Err(EscrowError::SignatureInvalid)
    );

    // A weighted split the binary core does not pay.
    let weighted = ResolveTicket { buyer_pct: 50, seller_pct: 50, ..release_ticket(0) };
    assert_eq!(
        resolve(&mut state, ARBITER, &weighted, 10, true),
        Err(EscrowError::InvalidSplit)
    );

    // Every failure above left the record untouched.
    assert_eq!(state.status, EscrowStatus::Funded);
    assert_eq!(state.nonce, 0);
    assert_eq!(state.verdict, Verdict::Pending);
}

#[test]
fn payout_requires_matching_verdict_and_caller() {
    let mut state = new_deal(100, 250, 0);
    let (mut buyer_acct, mut custody_acct, mut seller_acct) = accounts(1000);
    fund(&mut state, BUYER, &mut buyer_acct, &mut custody_acct).expect("funding should succeed");
    resolve(&mut state, ARBITER, &release_ticket(0), 10, true)
        .expect("resolution should succeed");

    // The verdict says Release, so a refund is the wrong payout.
    assert_eq!(
        refund(&mut state, BUYER, &mut custody_acct, &mut buyer_acct),
        Err(EscrowError::InvalidState)
    );

    // Only the seller collects a release.
    assert_eq!(
        release(&mut state, BUYER, &mut custody_acct, &mut seller_acct),
        Err(EscrowError::Unauthorized)
    );

    // Custody drained out-of-band: the move reports the shortfall.
    custody_acct.balance = 0;
    assert_eq!(
        release(&mut state, SELLER, &mut custody_acct, &mut seller_acct),
        Err(EscrowError::InsufficientFunds)
    );
}

#[test]
fn custody_move_is_exact_and_all_or_nothing() {
    let mut from = CustodyAccount { owner: 1, asset_class: ASSET, balance: 300 };
    let mut to = CustodyAccount { owner: 2, asset_class: ASSET, balance: 40 };

    assert_eq!(custody_move(&mut from, &mut to, ASSET, 250), Ok(()));
    assert_eq!(from.balance, 50);
    assert_eq!(to.balance, 290);

    assert_eq!(
        custody_move(&mut from, &mut to, ASSET, 51),
        Err(EscrowError::InsufficientFunds)
    );
    assert_eq!(from.balance, 50);
    assert_eq!(to.balance, 290);

    assert_eq!(custody_move(&mut from, &mut to, 77, 10), Err(EscrowError::AssetMismatch));
    assert_eq!(from.balance, 50);
    assert_eq!(to.balance, 290);
}
