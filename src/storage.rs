//! Vault-wide configuration.
use crate::constants::SCALAR_7;
use crate::errors::FeeVaultError;
use vstd::prelude::*;

verus! {

/// How the admin's cut of accrued interest is computed.
#[derive(Copy, Clone, Debug, PartialEq, Eq, Structural)]
pub struct FeeMode {
    /// Whether the vault APR is capped
    pub is_apr_capped: bool,
    /// The APR cap if `is_apr_capped`, otherwise the admin's take rate (7 decimals)
    pub value: i128,
}

/// A fee mode value is a fraction in `[0, 1]` with 7 decimals.
pub open spec fn is_valid_fee_mode_value(value: int) -> bool {
    0 <= value <= SCALAR_7
}

impl FeeMode {
    pub open spec fn wf(&self) -> bool {
        is_valid_fee_mode_value(self.value as int)
    }

    /// Builds a fee mode, rejecting a value outside `[0, SCALAR_7]`.
    pub fn new(is_apr_capped: bool, value: i128) -> (r: Result<FeeMode, FeeVaultError>)
        ensures
            is_valid_fee_mode_value(value as int) ==> r == Ok::<FeeMode, FeeVaultError>(
                FeeMode { is_apr_capped, value },
            ),
            !is_valid_fee_mode_value(value as int) ==> r == Err::<FeeMode, FeeVaultError>(
                FeeVaultError::InvalidFeeModeValue,
            ),
    {
        if value < 0 || value > SCALAR_7 {
            Err(FeeVaultError::InvalidFeeModeValue)
        } else {
            Ok(FeeMode { is_apr_capped, value })
        }
    }
}

} // verus!
