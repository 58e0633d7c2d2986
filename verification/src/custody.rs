use vstd::prelude::*;

use crate::errors::EscrowError;

verus! {

/// One account of the custody subsystem: the identity that controls it, the
/// asset class it holds, and its balance. The buyer's account, the seller's
/// account, and the deal's custody account are all of this shape.
#[derive(Clone, Copy, Debug, PartialEq, Eq, Structural)]
pub struct CustodyAccount {
    /// Identity that controls the account. For the deal's custody account
    /// this is the deal's custody handle, so only the engine's own
    /// transitions ever authorize outbound moves from it.
    pub owner: u128,
    /// The one asset class the account holds.
    pub asset_class: u128,
    /// Units of the asset class currently held.
    pub balance: u64,
}

/// Why a custody move of `amount` units of `asset_class` from `from` to `to`
/// would fail, or `None` when it succeeds: both accounts must hold exactly
/// the requested asset class, the source must cover the amount, and the
/// destination balance must not overflow its width.
pub open spec fn move_error(
    from: CustodyAccount,
    to: CustodyAccount,
    asset_class: u128,
    amount: u64,
) -> Option<EscrowError> {
    if from.asset_class != asset_class {
        Some(EscrowError::AssetMismatch)
    } else if to.asset_class != asset_class {
        Some(EscrowError::AssetMismatch)
    } else if from.balance < amount {
        Some(EscrowError::InsufficientFunds)
    } else if to.balance + amount > u64::MAX {
        Some(EscrowError::ArithmeticOverflow)
    } else {
        None
    }
}

/// `a` with `amount` units taken out.
pub open spec fn debited(a: CustodyAccount, amount: u64) -> CustodyAccount {
    CustodyAccount { balance: (a.balance - amount) as u64, ..a }
}

/// `a` with `amount` units put in.
pub open spec fn credited(a: CustodyAccount, amount: u64) -> CustodyAccount {
    CustodyAccount { balance: (a.balance + amount) as u64, ..a }
}

/// Move exactly `amount` units of `asset_class` from `from` to `to`.
///
/// The move is all-or-nothing: on any failure both accounts are exactly as
/// before, and on success the two balances change by exactly `amount`, so the
/// sum of the two balances is conserved in every outcome.
pub fn custody_move(
    from: &mut CustodyAccount,
    to: &mut CustodyAccount,
    asset_class: u128,
    amount: u64,
) -> (r: Result<(), EscrowError>)
    ensures
        r is Ok <==> move_error(*old(from), *old(to), asset_class, amount) is None,
        r matches Err(e) ==> move_error(*old(from), *old(to), asset_class, amount) == Some(e)
            && *final(from) == *old(from) && *final(to) == *old(to),
        r is Ok ==> *final(from) == debited(*old(from), amount)
            && *final(to) == credited(*old(to), amount),
        final(from).balance + final(to).balance == old(from).balance + old(to).balance,
{
    if from.asset_class != asset_class {
        return Err(EscrowError::AssetMismatch);
    }
    if to.asset_class != asset_class {
        return Err(EscrowError::AssetMismatch);
    }
    if from.balance < amount {
        return Err(EscrowError::InsufficientFunds);
    }
    if amount > u64::MAX - to.balance {
        return Err(EscrowError::ArithmeticOverflow);
    }
    from.balance = from.balance - amount;
    to.balance = to.balance + amount;
    Ok(())
}

} // verus!
