//! An escrowed-trade deal lifecycle: a seller and a buyer place a fixed
//! quantity of one asset class under custody until the deal concludes by
//! mutual progress, arbiter resolution, or refund.
//!
//! The crate holds the core that carries real invariants: the deal record and
//! its well-formedness, the authorization and deadline guards, the resolution
//! ticket verifier with its anti-replay nonce, and the transition engine with
//! its custody-coupled, all-or-nothing moves. The host ledger — persistence of
//! records, signature checking, and the clock — stays outside; every transition
//! takes the caller identity and the current time as arguments and reports one
//! named failure or returns the domain event it emitted.
//!
//! Each transition takes the deal record and the accounts it touches by
//! exclusive reference and runs to completion, so a host that serializes
//! calls per deal — as the borrow rules force within one process — never
//! interleaves two transitions on the same record.

pub mod custody;
pub mod engine;
pub mod errors;
pub mod events;
pub mod guards;
pub mod laws;
pub mod state;
pub mod ticket;
pub mod utils;
