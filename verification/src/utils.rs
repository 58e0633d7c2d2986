use vstd::prelude::*;

use crate::errors::EscrowError;

verus! {

/// Guard a quantity against being zero, reporting the same error an
/// underfunded move would: moving zero units is never meaningful here.
pub fn assert_nonzero(amount: u64) -> (r: Result<(), EscrowError>)
    ensures
        r is Ok <==> amount > 0,
        r is Err ==> r == Err::<(), EscrowError>(EscrowError::InsufficientFunds),
{
    if amount > 0 {
        Ok(())
    } else {
        Err(EscrowError::InsufficientFunds)
    }
}

} // verus!
