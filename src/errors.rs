use vstd::prelude::*;

verus! {

/// The ways an operation of the fee vault can fail.
#[derive(Copy, Clone, Debug, PartialEq, Eq, Structural)]
pub enum FeeVaultError {
    /// The user's share balance is too small for the requested withdrawal
    BalanceError,
    /// The reserve has no vault
    ReserveNotFound,
    /// The reserve already has a vault
    ReserveAlreadyExists,
    /// An amount that must be positive was not
    InvalidAmount,
    /// The admin's accrued fees cannot cover the claim
    InsufficientAccruedFees,
    /// A fee mode value outside of `[0, SCALAR_7]`
    InvalidFeeModeValue,
    /// The withdrawal would remove more shares or b-tokens than the vault holds
    InsufficientReserves,
    /// A deposit too small to mint any b-tokens
    InvalidBTokensMinted,
    /// A withdrawal too small to burn any shares
    InvalidBTokensBurnt,
    /// A deposit too small to mint any shares
    InvalidSharesMinted,
    /// A fixed-point intermediate value does not fit in an `i128`
    ArithmeticError,
}

impl FeeVaultError {
    /// The numeric code of the error, as reported to callers of the vault.
    pub fn code(&self) -> (r: u32)
        ensures
            r == self.spec_code(),
    {
        match self {
            FeeVaultError::BalanceError => 10,
            FeeVaultError::ReserveNotFound => 100,
            FeeVaultError::ReserveAlreadyExists => 101,
            FeeVaultError::InvalidAmount => 102,
            FeeVaultError::InsufficientAccruedFees => 103,
            FeeVaultError::InvalidFeeModeValue => 104,
            FeeVaultError::InsufficientReserves => 105,
            FeeVaultError::InvalidBTokensMinted => 106,
            FeeVaultError::InvalidBTokensBurnt => 107,
            FeeVaultError::InvalidSharesMinted => 108,
            FeeVaultError::ArithmeticError => 109,
        }
    }

    pub open spec fn spec_code(&self) -> u32 {
        match self {
            FeeVaultError::BalanceError => 10,
            FeeVaultError::ReserveNotFound => 100,
            FeeVaultError::ReserveAlreadyExists => 101,
            FeeVaultError::InvalidAmount => 102,
            FeeVaultError::InsufficientAccruedFees => 103,
            FeeVaultError::InvalidFeeModeValue => 104,
            FeeVaultError::InsufficientReserves => 105,
            FeeVaultError::InvalidBTokensMinted => 106,
            FeeVaultError::InvalidBTokensBurnt => 107,
            FeeVaultError::InvalidSharesMinted => 108,
            FeeVaultError::ArithmeticError => 109,
        }
    }
}

} // verus!
