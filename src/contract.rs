//! The vault's entry points over explicit state.
//!
//! The host ledger keeps the records; each entry point takes the records it
//! reads and writes, the current time and the pool's current b-rate of the
//! reserve, and returns what the host persists and reports.
use crate::errors::FeeVaultError;
use crate::fixed_point::{fits_i128, mul_fits};
use crate::reserve_vault::{
    self, accrue_interest_for_all_reserves, can_update_all, claim_outcome, deposit_outcome,
    get_reserve_vault_updated, update_outcome, withdraw_outcome, ReserveVault,
};
use crate::storage::{is_valid_fee_mode_value, FeeMode};
use crate::validator::require_positive;
use vstd::prelude::*;

verus! {

/// The vault's configuration, passed explicitly to each operation.
#[derive(Copy, Clone, Debug, PartialEq, Eq, Structural)]
pub struct FeeVault {
    /// How the admin's cut of accrued interest is computed
    pub fee_mode: FeeMode,
}

/// A position of `shares` in the up-to-date record `u`, in b-tokens.
pub open spec fn position_b_tokens(u: ReserveVault, shares: i128) -> Result<i128, FeeVaultError> {
    if u.total_shares <= 0 || !fits_i128(shares * u.total_b_tokens) {
        Err(FeeVaultError::ArithmeticError)
    } else {
        Ok(u.spec_shares_to_b_tokens_down(shares as int) as i128)
    }
}

/// A position of `shares` in the up-to-date record `u`, in underlying tokens.
pub open spec fn position_underlying(u: ReserveVault, shares: i128) -> Result<i128, FeeVaultError> {
    match position_b_tokens(u, shares) {
        Ok(b) => if fits_i128(b * u.b_rate) {
            Ok(u.spec_b_tokens_to_underlying_down(b as int) as i128)
        } else {
            Err(FeeVaultError::ArithmeticError)
        },
        Err(e) => Err(e),
    }
}

/// The admin's accrued fees in the up-to-date record `u`, in underlying tokens.
pub open spec fn fees_underlying(u: ReserveVault) -> Result<i128, FeeVaultError> {
    if fits_i128(u.accrued_fees * u.b_rate) {
        Ok(u.spec_b_tokens_to_underlying_down(u.accrued_fees as int) as i128)
    } else {
        Err(FeeVaultError::ArithmeticError)
    }
}

/// The precondition shared by the operations on one reserve: a well-formed
/// record, last updated no later than `now`.
pub open spec fn can_update(vault: ReserveVault, now: u64) -> bool {
    &&& vault.wf()
    &&& now >= vault.last_update_timestamp
}

impl FeeVault {
    pub open spec fn wf(&self) -> bool {
        self.fee_mode.wf()
    }

    /// Initializes the vault with a fee mode: an APR cap if `is_apr_capped`,
    /// the admin take rate otherwise.
    pub fn new(is_apr_capped: bool, value: i128) -> (r: Result<FeeVault, FeeVaultError>)
        ensures
            is_valid_fee_mode_value(value as int) ==> r == Ok::<FeeVault, FeeVaultError>(
                FeeVault { fee_mode: FeeMode { is_apr_capped, value } },
            ),
            !is_valid_fee_mode_value(value as int) ==> r == Err::<FeeVault, FeeVaultError>(
                FeeVaultError::InvalidFeeModeValue,
            ),
            r matches Ok(v) ==> v.wf(),
    {
        match FeeMode::new(is_apr_capped, value) {
            Ok(fee_mode) => Ok(FeeVault { fee_mode }),
            Err(e) => Err(e),
        }
    }

    /// A user's position of `shares` in b-tokens, or 0 if they have no shares.
    pub fn get_b_tokens(&self, vault: &ReserveVault, shares: i128, now: u64, new_rate: i128) -> (r: Result<
        i128,
        FeeVaultError,
    >)
        requires
            self.wf(),
            can_update(*vault, now),
        ensures
            shares <= 0 ==> r == Ok::<i128, FeeVaultError>(0),
            shares > 0 ==> r == match update_outcome(*vault, now, new_rate, self.fee_mode) {
                Ok(u) => position_b_tokens(u, shares),
                Err(e) => Err(e),
            },
    {
        if shares <= 0 {
            return Ok(0);
        }
        let updated = match get_reserve_vault_updated(vault, now, new_rate, &self.fee_mode) {
            Ok(u) => u,
            Err(e) => return Err(e),
        };
        if updated.total_shares <= 0 || !mul_fits(shares, updated.total_b_tokens) {
            return Err(FeeVaultError::ArithmeticError);
        }
        Ok(updated.shares_to_b_tokens_down(shares))
    }

    /// A user's position of `shares` in underlying tokens, or 0 if they have no shares.
    pub fn get_underlying_tokens(&self, vault: &ReserveVault, shares: i128, now: u64, new_rate: i128) -> (r:
        Result<i128, FeeVaultError>)
        requires
            self.wf(),
            can_update(*vault, now),
        ensures
            shares <= 0 ==> r == Ok::<i128, FeeVaultError>(0),
            shares > 0 ==> r == match update_outcome(*vault, now, new_rate, self.fee_mode) {
                Ok(u) => position_underlying(u, shares),
                Err(e) => Err(e),
            },
    {
        if shares <= 0 {
            return Ok(0);
        }
        let updated = match get_reserve_vault_updated(vault, now, new_rate, &self.fee_mode) {
            Ok(u) => u,
            Err(e) => return Err(e),
        };
        if updated.total_shares <= 0 || !mul_fits(shares, updated.total_b_tokens) {
            return Err(FeeVaultError::ArithmeticError);
        }
        let b_tokens = updated.shares_to_b_tokens_down(shares);
        if !mul_fits(b_tokens, updated.b_rate) {
            return Err(FeeVaultError::ArithmeticError);
        }
        Ok(updated.b_tokens_to_underlying_down(b_tokens))
    }

    /// The admin's accrued fees in underlying tokens, or 0 if the reserve has no vault.
    pub fn get_collected_fees(&self, vault: Option<ReserveVault>, now: u64, new_rate: i128) -> (r: Result<
        i128,
        FeeVaultError,
    >)
        requires
            self.wf(),
            vault matches Some(v) ==> can_update(v, now),
        ensures
            vault is None ==> r == Ok::<i128, FeeVaultError>(0),
            vault matches Some(v) ==> r == match update_outcome(v, now, new_rate, self.fee_mode) {
                Ok(u) => fees_underlying(u),
                Err(e) => Err(e),
            },
    {
        match vault {
            None => Ok(0),
            Some(v) => {
                let updated = match get_reserve_vault_updated(&v, now, new_rate, &self.fee_mode) {
                    Ok(u) => u,
                    Err(e) => return Err(e),
                };
                if !mul_fits(updated.accrued_fees, updated.b_rate) {
                    return Err(FeeVaultError::ArithmeticError);
                }
                Ok(updated.b_tokens_to_underlying_down(updated.accrued_fees))
            },
        }
    }

    /// The reserve vault data, brought up to date with the pool's b-rate.
    pub fn get_reserve_vault(&self, vault: &ReserveVault, now: u64, new_rate: i128) -> (r: Result<
        ReserveVault,
        FeeVaultError,
    >)
        requires
            self.wf(),
            can_update(*vault, now),
        ensures
            r == update_outcome(*vault, now, new_rate, self.fee_mode),
            r matches Ok(u) ==> u.wf(),
    {
        get_reserve_vault_updated(vault, now, new_rate, &self.fee_mode)
    }

    /// Sets the fee mode. Interest of every reserve is accrued under the
    /// current mode first, so that the new mode has no retroactive effect;
    /// `rates[i]` is the pool's current b-rate of `vaults[i]`.
    ///
    /// On an error neither the mode nor any record changes.
    pub fn set_fee_mode(
        &mut self,
        is_apr_capped: bool,
        value: i128,
        vaults: &mut Vec<ReserveVault>,
        now: u64,
        rates: &Vec<i128>,
    ) -> (r: Result<(), FeeVaultError>)
        requires
            old(self).wf(),
            can_update_all(old(vaults)@, now, rates@),
        ensures
            final(self).wf(),
            !is_valid_fee_mode_value(value as int) ==> r == Err::<(), FeeVaultError>(
                FeeVaultError::InvalidFeeModeValue,
            ),
            is_valid_fee_mode_value(value as int) ==> (r is Ok <==> forall|i: int|
                0 <= i < old(vaults)@.len() ==> #[trigger] old(vaults)@[i].update_fits(
                    now,
                    rates@[i],
                    old(self).fee_mode,
                )),
            r is Ok ==> final(self).fee_mode == (FeeMode { is_apr_capped, value }),
            r is Ok ==> final(vaults)@.len() == old(vaults)@.len() && forall|i: int|
                0 <= i < old(vaults)@.len() ==> #[trigger] final(vaults)@[i] == old(vaults)@[i].spec_updated(
                    now,
                    rates@[i],
                    old(self).fee_mode,
                ),
            r is Err ==> *final(self) == *old(self) && final(vaults)@ == old(vaults)@,
            forall|i: int| 0 <= i < final(vaults)@.len() ==> #[trigger] final(vaults)@[i].wf(),
    {
        let fee_mode = match FeeMode::new(is_apr_capped, value) {
            Ok(m) => m,
            Err(e) => return Err(e),
        };
        match accrue_interest_for_all_reserves(vaults, now, rates, &self.fee_mode) {
            Ok(()) => {},
            Err(e) => return Err(e),
        }
        self.fee_mode = fee_mode;
        Ok(())
    }

    /// A new reserve vault, whose growth is measured from the pool's current
    /// b-rate `b_rate` at `now`; fails if the reserve already has a vault, or
    /// if the rate is not positive.
    pub fn add_reserve_vault(&self, already_registered: bool, b_rate: i128, now: u64) -> (r: Result<
        ReserveVault,
        FeeVaultError,
    >)
        ensures
            already_registered ==> r == Err::<ReserveVault, FeeVaultError>(FeeVaultError::ReserveAlreadyExists),
            !already_registered && b_rate <= 0 ==> r == Err::<ReserveVault, FeeVaultError>(
                FeeVaultError::ArithmeticError,
            ),
            !already_registered && b_rate > 0 ==> r == Ok::<ReserveVault, FeeVaultError>(
                ReserveVault {
                    b_rate,
                    last_update_timestamp: now,
                    total_shares: 0,
                    total_b_tokens: 0,
                    accrued_fees: 0,
                },
            ),
            r matches Ok(v) ==> v.wf(),
    {
        if already_registered {
            Err(FeeVaultError::ReserveAlreadyExists)
        } else if b_rate <= 0 {
            Err(FeeVaultError::ArithmeticError)
        } else {
            Ok(
                ReserveVault {
                    b_rate,
                    last_update_timestamp: now,
                    total_shares: 0,
                    total_b_tokens: 0,
                    accrued_fees: 0,
                },
            )
        }
    }

    /// Claims the admin's accrued fees of a reserve. Returns the b-tokens burnt
    /// and the underlying amount to withdraw from the pool.
    pub fn claim_fees(&self, vault: &mut ReserveVault, now: u64, new_rate: i128) -> (r: Result<
        (i128, i128),
        FeeVaultError,
    >)
        requires
            self.wf(),
            can_update(*old(vault), now),
        ensures
            final(vault).wf(),
            claim_outcome(*old(vault), now, new_rate, self.fee_mode) matches Ok((v, b, u)) ==> r == Ok::<
                (i128, i128),
                FeeVaultError,
            >((b, u)) && *final(vault) == v,
            claim_outcome(*old(vault), now, new_rate, self.fee_mode) matches Err(e) ==> r == Err::<
                (i128, i128),
                FeeVaultError,
            >(e) && *final(vault) == *old(vault),
    {
        reserve_vault::claim_fees(vault, now, new_rate, &self.fee_mode)
    }

    /// Deposits `amount` underlying for a user holding `user_shares`. Returns
    /// the b-tokens minted and the shares minted.
    pub fn deposit(
        &self,
        vault: &mut ReserveVault,
        user_shares: &mut i128,
        amount: i128,
        now: u64,
        new_rate: i128,
    ) -> (r: Result<(i128, i128), FeeVaultError>)
        requires
            self.wf(),
            can_update(*old(vault), now),
        ensures
            final(vault).wf(),
            amount <= 0 ==> r == Err::<(i128, i128), FeeVaultError>(FeeVaultError::InvalidAmount)
                && *final(vault) == *old(vault) && *final(user_shares) == *old(user_shares),
            amount > 0 ==> (deposit_outcome(*old(vault), *old(user_shares), amount, now, new_rate, self.fee_mode)
                matches Ok((v, u, b, s)) ==> r == Ok::<(i128, i128), FeeVaultError>((b, s)) && *final(vault)
                == v && *final(user_shares) == u),
            amount > 0 ==> (deposit_outcome(*old(vault), *old(user_shares), amount, now, new_rate, self.fee_mode)
                matches Err(e) ==> r == Err::<(i128, i128), FeeVaultError>(e) && *final(vault) == *old(vault)
                && *final(user_shares) == *old(user_shares)),
    {
        if let Err(e) = require_positive(amount, FeeVaultError::InvalidAmount) {
            return Err(e);
        }
        reserve_vault::deposit(vault, user_shares, amount, now, new_rate, &self.fee_mode)
    }

    /// Withdraws `amount` underlying for a user holding `user_shares`. Returns
    /// the b-tokens burnt and the shares burnt, including any dust left behind.
    pub fn withdraw(
        &self,
        vault: &mut ReserveVault,
        user_shares: &mut i128,
        amount: i128,
        now: u64,
        new_rate: i128,
    ) -> (r: Result<(i128, i128), FeeVaultError>)
        requires
            self.wf(),
            can_update(*old(vault), now),
        ensures
            final(vault).wf(),
            amount <= 0 ==> r == Err::<(i128, i128), FeeVaultError>(FeeVaultError::InvalidAmount)
                && *final(vault) == *old(vault) && *final(user_shares) == *old(user_shares),
            amount > 0 ==> (withdraw_outcome(*old(vault), *old(user_shares), amount, now, new_rate, self.fee_mode)
                matches Ok((v, u, b, s)) ==> r == Ok::<(i128, i128), FeeVaultError>((b, s)) && *final(vault)
                == v && *final(user_shares) == u),
            amount > 0 ==> (withdraw_outcome(*old(vault), *old(user_shares), amount, now, new_rate, self.fee_mode)
                matches Err(e) ==> r == Err::<(i128, i128), FeeVaultError>(e) && *final(vault) == *old(vault)
                && *final(user_shares) == *old(user_shares)),
    {
        if let Err(e) = require_positive(amount, FeeVaultError::InvalidAmount) {
            return Err(e);
        }
        reserve_vault::withdraw(vault, user_shares, amount, now, new_rate, &self.fee_mode)
    }
}

} // verus!
