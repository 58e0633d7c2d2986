use onchain_escrow::state::EscrowStatus;

#[test]
fn sc_state_01_valid_transitions_happy_path() {
    // INIT -> FUNDED -> DISPUTED -> RESOLVED -> RELEASED
    let mut status = EscrowStatus::Init;

    // Init -> Funded
    assert_eq!(status, EscrowStatus::Init);
    status = EscrowStatus::Funded;

    // Funded -> Disputed
    assert_eq!(status, EscrowStatus::Funded);
    status = EscrowStatus::Disputed;

    // Disputed -> Resolved
    assert_eq!(status, EscrowStatus::Disputed);
    status = EscrowStatus::Resolved;

    // Resolved -> Released
    assert_eq!(status, EscrowStatus::Resolved);
    status = EscrowStatus::Released;

    assert_eq!(status, EscrowStatus::Released);
}

#[test]
fn sc_state_02_refund_flow_happy_path() {
    // INIT -> FUNDED -> DISPUTED -> RESOLVED -> REFUNDED
    let mut status = EscrowStatus::Init;
    status = EscrowStatus::Funded;
    status = EscrowStatus::Disputed;
    status = EscrowStatus::Resolved;
    status = EscrowStatus::Refunded;

    assert_eq!(status, EscrowStatus::Refunded);
}

#[test]
fn sc_state_03_invalid_backward_transition() {
    // The enum itself does not enforce transitions; this tests the logic
    // a caller would use.
    let check_transition = |from: EscrowStatus, to: EscrowStatus| -> bool {
        match (from, to) {
            (EscrowStatus::Init, EscrowStatus::Funded) => true,
            (EscrowStatus::Funded, EscrowStatus::Disputed) => true,
            (EscrowStatus::Funded, EscrowStatus::Released) => true, // Auto-release
            (EscrowStatus::Disputed, EscrowStatus::Resolved) => true,
            (EscrowStatus::Resolved, EscrowStatus::Released) => true,
            (EscrowStatus::Resolved, EscrowStatus::Refunded) => true,
            _ => false,
        }
    };

    // Try RESOLVED -> FUNDED
    assert!(!check_transition(EscrowStatus::Resolved, EscrowStatus::Funded));

    // Try RELEASED -> DISPUTED
    assert!(!check_transition(EscrowStatus::Released, EscrowStatus::Disputed));
}

#[test]
fn sc_time_01_delivery_deadline_not_yet_reached() {
    let now: i64 = 1000;
    let deliver_deadline: i64 = 2000;

    let can_auto_refund = now > deliver_deadline;
    assert!(!can_auto_refund);
}

#[test]
fn sc_time_02_delivery_window_expired() {
    let now: i64 = 3000;
    let deliver_deadline: i64 = 2000;

    let can_auto_refund = now > deliver_deadline;
    assert!(can_auto_refund);
}

#[test]
fn sc_time_03_dispute_deadline() {
    let dispute_deadline: i64 = 5000;

    let now_before: i64 = 4000;
    let dispute_allowed_before = now_before <= dispute_deadline;
    assert!(dispute_allowed_before);

    let now_after: i64 = 6000;
    let dispute_allowed_after = now_after <= dispute_deadline;
    assert!(!dispute_allowed_after);
}

#[test]
fn sc_inv_01_funds_conservation() {
    let initial_buyer: u64 = 1000;
    let initial_seller: u64 = 0;
    let initial_vault: u64 = 0;
    let amount: u64 = 100;

    // Fund
    let buyer = initial_buyer - amount;
    let vault = initial_vault + amount;
    let seller = initial_seller;

    assert_eq!(buyer + seller + vault, initial_buyer + initial_seller + initial_vault);

    // Release
    let vault_after: u64 = 0;
    let seller_after = seller + amount;
    let buyer_after = buyer;

    assert_eq!(
        buyer_after + seller_after + vault_after,
        initial_buyer + initial_seller + initial_vault
    );
}
