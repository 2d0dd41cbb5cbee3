//! Share and fee accounting for a fee-skimming yield vault that sits in front
//! of a lending pool.
//!
//! Depositors put an underlying asset into a reserve; the vault holds the
//! pool's yield-bearing b-tokens for them and tracks each depositor's claim
//! as vault shares. As the pool's b-rate grows, part of the interest is
//! skimmed to an admin fee pot, either as a flat take-rate or as the excess
//! over an APR cap.

pub mod constants;
pub mod contract;
pub mod errors;
pub mod fixed_point;
pub mod guarantees;
pub mod reserve_vault;
pub mod storage;
pub mod validator;

pub use contract::FeeVault;
pub use errors::FeeVaultError;
pub use reserve_vault::ReserveVault;
pub use storage::FeeMode;
