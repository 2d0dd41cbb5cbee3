use crate::errors::FeeVaultError;
use vstd::prelude::*;

verus! {

/// Requires that an amount is positive, failing with `err` otherwise.
pub fn require_positive(amount: i128, err: FeeVaultError) -> (r: Result<(), FeeVaultError>)
    ensures
        amount > 0 ==> r == Ok::<(), FeeVaultError>(()),
        amount <= 0 ==> r == Err::<(), FeeVaultError>(err),
{
    if amount <= 0 {
        Err(err)
    } else {
        Ok(())
    }
}

} // verus!
