//! The per-reserve vault record, its conversions between underlying tokens,
//! b-tokens and shares, and the rate update that accrues the admin's fees.
use crate::constants::{SCALAR_12, SCALAR_7, SECONDS_PER_YEAR};
use crate::errors::FeeVaultError;
use crate::fixed_point::{
    fits_i128, fixed_div_ceil, fixed_div_floor, fixed_mul_ceil, fixed_mul_floor,
    lemma_mul_div_bounds, mul_div_ceil, mul_div_floor, mul_fits,
};
use crate::storage::FeeMode;
use crate::validator::require_positive;
use vstd::prelude::*;

verus! {

/// The accounting record of one reserve.
#[derive(Copy, Clone, Debug, PartialEq, Eq, Structural)]
pub struct ReserveVault {
    /// The reserve's last observed b-rate (underlying per b-token, 12 decimals)
    pub b_rate: i128,
    /// The timestamp of the last rate observation
    pub last_update_timestamp: u64,
    /// The total shares issued by the reserve vault
    pub total_shares: i128,
    /// The b-tokens owned by the depositors. Excludes accrued fees.
    pub total_b_tokens: i128,
    /// The b-tokens the admin is due
    pub accrued_fees: i128,
}

impl ReserveVault {
    /// A positive rate, no negative total, and a b-token holding that fits in an `i128`.
    pub open spec fn wf(&self) -> bool {
        &&& self.b_rate > 0
        &&& self.total_shares >= 0
        &&& self.total_b_tokens >= 0
        &&& self.accrued_fees >= 0
        &&& self.total_b_tokens + self.accrued_fees <= i128::MAX
    }

    /// All b-tokens the vault holds in the pool for this reserve: the
    /// depositors' and the admin's.
    pub open spec fn held_b_tokens(&self) -> int {
        self.total_b_tokens + self.accrued_fees
    }

    /// Whether shares and b-tokens are exchanged at the bootstrap rate of 1:1.
    pub open spec fn at_bootstrap_rate(&self) -> bool {
        self.total_shares == 0 || self.total_b_tokens == 0
    }

    pub open spec fn spec_b_tokens_to_shares_down(&self, amount: int) -> int {
        if self.at_bootstrap_rate() {
            amount
        } else {
            mul_div_floor(amount, self.total_shares as int, self.total_b_tokens as int)
        }
    }

    pub open spec fn spec_b_tokens_to_shares_up(&self, amount: int) -> int {
        if self.at_bootstrap_rate() {
            amount
        } else {
            mul_div_ceil(amount, self.total_shares as int, self.total_b_tokens as int)
        }
    }

    /// Whether converting `amount` b-tokens to shares stays within `i128`.
    pub open spec fn b_tokens_to_shares_fits(&self, amount: int) -> bool {
        self.at_bootstrap_rate() || fits_i128(amount * self.total_shares)
    }

    pub open spec fn spec_shares_to_b_tokens_down(&self, amount: int) -> int {
        mul_div_floor(amount, self.total_b_tokens as int, self.total_shares as int)
    }

    pub open spec fn spec_b_tokens_to_underlying_down(&self, amount: int) -> int {
        mul_div_floor(amount, self.b_rate as int, SCALAR_12 as int)
    }

    pub open spec fn spec_underlying_to_b_tokens_down(&self, amount: int) -> int {
        mul_div_floor(amount, SCALAR_12 as int, self.b_rate as int)
    }

    pub open spec fn spec_underlying_to_b_tokens_up(&self, amount: int) -> int {
        mul_div_ceil(amount, SCALAR_12 as int, self.b_rate as int)
    }

    /// Converts a b-token amount to shares rounding down
    pub fn b_tokens_to_shares_down(&self, amount: i128) -> (r: i128)
        requires
            self.wf(),
            self.b_tokens_to_shares_fits(amount as int),
        ensures
            r == self.spec_b_tokens_to_shares_down(amount as int),
    {
        if self.total_shares == 0 || self.total_b_tokens == 0 {
            return amount;
        }
        fixed_mul_floor(amount, self.total_shares, self.total_b_tokens).unwrap()
    }

    /// Converts a b-token amount to shares rounding up
    pub fn b_tokens_to_shares_up(&self, amount: i128) -> (r: i128)
        requires
            self.wf(),
            self.b_tokens_to_shares_fits(amount as int),
        ensures
            r == self.spec_b_tokens_to_shares_up(amount as int),
    {
        if self.total_shares == 0 || self.total_b_tokens == 0 {
            return amount;
        }
        fixed_mul_ceil(amount, self.total_shares, self.total_b_tokens).unwrap()
    }

    /// Converts a share amount to a b-token amount rounding down
    pub fn shares_to_b_tokens_down(&self, amount: i128) -> (r: i128)
        requires
            self.wf(),
            self.total_shares > 0,
            fits_i128(amount * self.total_b_tokens),
        ensures
            r == self.spec_shares_to_b_tokens_down(amount as int),
    {
        fixed_div_floor(amount, self.total_shares, self.total_b_tokens).unwrap()
    }

    /// Converts a b-token amount to an underlying token amount rounding down
    pub fn b_tokens_to_underlying_down(&self, amount: i128) -> (r: i128)
        requires
            self.wf(),
            fits_i128(amount * self.b_rate),
        ensures
            r == self.spec_b_tokens_to_underlying_down(amount as int),
    {
        fixed_mul_floor(amount, self.b_rate, SCALAR_12).unwrap()
    }

    /// Converts an underlying amount to a b-token amount rounding down
    pub fn underlying_to_b_tokens_down(&self, amount: i128) -> (r: i128)
        requires
            self.wf(),
            fits_i128(amount * SCALAR_12),
        ensures
            r == self.spec_underlying_to_b_tokens_down(amount as int),
    {
        fixed_div_floor(amount, self.b_rate, SCALAR_12).unwrap()
    }

    /// Converts an underlying amount to a b-token amount rounding up
    pub fn underlying_to_b_tokens_up(&self, amount: i128) -> (r: i128)
        requires
            self.wf(),
            fits_i128(amount * SCALAR_12),
        ensures
            r == self.spec_underlying_to_b_tokens_up(amount as int),
    {
        fixed_div_ceil(amount, self.b_rate, SCALAR_12).unwrap()
    }
}


/// The growth factor that an APR of `apr` (7 decimals) allows over `elapsed`
/// seconds, as a 12-decimal fixed-point number: 1 plus the pro-rated APR,
/// rounded up.
pub open spec fn target_growth_rate(apr: int, elapsed: int) -> int {
    mul_div_ceil(100_000 * apr, elapsed, SECONDS_PER_YEAR as int) + SCALAR_12
}

/// The highest b-rate that an APR cap allows, rounded up.
pub open spec fn target_b_rate(old_rate: int, apr: int, elapsed: int) -> int {
    mul_div_ceil(old_rate, target_growth_rate(apr, elapsed), SCALAR_12 as int)
}

/// Flat take-rate mode: the value growth of `b_tokens`, times the take rate,
/// converted back to b-tokens at the new rate. Every step rounds down.
pub open spec fn flat_take(b_tokens: int, old_rate: int, new_rate: int, take_rate: int) -> int {
    let growth = mul_div_floor(b_tokens, new_rate - old_rate, SCALAR_12 as int);
    let fee_value = mul_div_floor(growth, take_rate, SCALAR_7 as int);
    mul_div_floor(fee_value, SCALAR_12 as int, new_rate)
}

/// Whether every intermediate product of `flat_take` fits in an `i128`.
pub open spec fn flat_take_fits(b_tokens: int, old_rate: int, new_rate: int, take_rate: int) -> bool {
    let growth = mul_div_floor(b_tokens, new_rate - old_rate, SCALAR_12 as int);
    let fee_value = mul_div_floor(growth, take_rate, SCALAR_7 as int);
    &&& fits_i128(b_tokens * (new_rate - old_rate))
    &&& fits_i128(growth * take_rate)
    &&& fits_i128(fee_value * SCALAR_12)
}

/// APR-capped mode: the b-tokens worth the growth above the capped rate, at
/// the new rate, rounded down; nothing when the cap was not exceeded.
pub open spec fn capped_take(b_tokens: int, old_rate: int, new_rate: int, apr: int, elapsed: int) -> int {
    let target = target_b_rate(old_rate, apr, elapsed);
    if target >= new_rate {
        0
    } else {
        mul_div_floor(b_tokens, new_rate - target, new_rate)
    }
}

/// Whether every intermediate product of `capped_take` fits in an `i128`.
pub open spec fn capped_take_fits(b_tokens: int, old_rate: int, new_rate: int, apr: int, elapsed: int) -> bool {
    let target = target_b_rate(old_rate, apr, elapsed);
    &&& fits_i128(old_rate * target_growth_rate(apr, elapsed))
    &&& (target >= new_rate || fits_i128(b_tokens * (new_rate - target)))
}

impl ReserveVault {
    /// The admin's cut, in b-tokens, of the growth from the stored rate to `new_rate`.
    pub open spec fn admin_take(&self, now: u64, new_rate: i128, mode: FeeMode) -> int {
        if mode.is_apr_capped {
            capped_take(
                self.total_b_tokens as int,
                self.b_rate as int,
                new_rate as int,
                mode.value as int,
                now - self.last_update_timestamp,
            )
        } else {
            flat_take(self.total_b_tokens as int, self.b_rate as int, new_rate as int, mode.value as int)
        }
    }

    pub open spec fn admin_take_fits(&self, now: u64, new_rate: i128, mode: FeeMode) -> bool {
        if mode.is_apr_capped {
            capped_take_fits(
                self.total_b_tokens as int,
                self.b_rate as int,
                new_rate as int,
                mode.value as int,
                now - self.last_update_timestamp,
            )
        } else {
            flat_take_fits(self.total_b_tokens as int, self.b_rate as int, new_rate as int, mode.value as int)
        }
    }

    /// Whether the rate update at `now` to `new_rate` can be computed: a new
    /// rate must be positive, and every intermediate value must fit in `i128`.
    pub open spec fn update_fits(&self, now: u64, new_rate: i128, mode: FeeMode) -> bool {
        now == self.last_update_timestamp || new_rate == self.b_rate || (new_rate > 0 && self.admin_take_fits(
            now,
            new_rate,
            mode,
        ))
    }

    /// The record after observing `new_rate` at `now`: nothing changes when no
    /// time has passed; only the timestamp when the rate is flat; otherwise the
    /// rate advances and a positive admin cut moves from the depositors' b-tokens
    /// to the accrued fees.
    pub open spec fn spec_updated(&self, now: u64, new_rate: i128, mode: FeeMode) -> ReserveVault {
        if now == self.last_update_timestamp {
            *self
        } else if new_rate == self.b_rate {
            ReserveVault { last_update_timestamp: now, ..*self }
        } else {
            let take = self.admin_take(now, new_rate, mode);
            if take <= 0 {
                ReserveVault { b_rate: new_rate, last_update_timestamp: now, ..*self }
            } else {
                ReserveVault {
                    b_rate: new_rate,
                    last_update_timestamp: now,
                    total_b_tokens: (self.total_b_tokens - take) as i128,
                    accrued_fees: (self.accrued_fees + take) as i128,
                    ..*self
                }
            }
        }
    }

    /// Updates the reserve's b-rate and accrues fees to the admin in accordance
    /// with the portion of interest they earned.
    ///
    /// `now` is the current time and `new_rate` the pool's current b-rate.
    pub fn update_rate(&mut self, now: u64, new_rate: i128, fee_mode: &FeeMode) -> (r: Result<(), FeeVaultError>)
        requires
            old(self).wf(),
            fee_mode.wf(),
            now >= old(self).last_update_timestamp,
        ensures
            r is Ok <==> old(self).update_fits(now, new_rate, *fee_mode),
            r is Ok ==> *final(self) == old(self).spec_updated(now, new_rate, *fee_mode),
            r is Err ==> r == Err::<(), FeeVaultError>(FeeVaultError::ArithmeticError) && *final(self) == *old(self),
            final(self).wf(),
    {
        if now == self.last_update_timestamp {
            return Ok(());
        }
        if new_rate == self.b_rate {
            self.last_update_timestamp = now;
            return Ok(());
        }
        if new_rate <= 0 {
            return Err(FeeVaultError::ArithmeticError);
        }
        let admin_take_b_tokens: i128 = if fee_mode.is_apr_capped {
            let target_apr = fee_mode.value;
            let time_elapsed: u64 = now - self.last_update_timestamp;
            proof {
                lemma_growth_in_range(target_apr as int, time_elapsed as int);
            }
            let pro_rated_apr = fixed_mul_ceil(100_000 * target_apr, time_elapsed as i128, SECONDS_PER_YEAR).unwrap();
            let target_growth_rate: i128 = pro_rated_apr + SCALAR_12;
            let target_b_rate = match fixed_mul_ceil(self.b_rate, target_growth_rate, SCALAR_12) {
                Some(t) => t,
                None => return Err(FeeVaultError::ArithmeticError),
            };
            if target_b_rate >= new_rate {
                0
            } else {
                match fixed_mul_floor(self.total_b_tokens, new_rate - target_b_rate, new_rate) {
                    Some(t) => t,
                    None => return Err(FeeVaultError::ArithmeticError),
                }
            }
        } else {
            let admin_take_rate = fee_mode.value;
            let growth = match fixed_mul_floor(self.total_b_tokens, new_rate - self.b_rate, SCALAR_12) {
                Some(g) => g,
                None => return Err(FeeVaultError::ArithmeticError),
            };
            let fee_value = match fixed_mul_floor(growth, admin_take_rate, SCALAR_7) {
                Some(f) => f,
                None => return Err(FeeVaultError::ArithmeticError),
            };
            match fixed_div_floor(fee_value, new_rate, SCALAR_12) {
                Some(t) => t,
                None => return Err(FeeVaultError::ArithmeticError),
            }
        };

        self.last_update_timestamp = now;
        self.b_rate = new_rate;

        // if no interest was accrued we do not accrue fees
        if admin_take_b_tokens <= 0 {
            return Ok(());
        }
        proof {
            if fee_mode.is_apr_capped {
                lemma_capped_take_bounded(
                    old(self).total_b_tokens as int,
                    old(self).b_rate as int,
                    new_rate as int,
                    fee_mode.value as int,
                    now - old(self).last_update_timestamp,
                );
            } else {
                lemma_flat_take_bounded(
                    old(self).total_b_tokens as int,
                    old(self).b_rate as int,
                    new_rate as int,
                    fee_mode.value as int,
                );
            }
        }
        self.total_b_tokens = self.total_b_tokens - admin_take_b_tokens;
        self.accrued_fees = self.accrued_fees + admin_take_b_tokens;
        Ok(())
    }
}

/// The pro-rated APR term of the growth rate stays well inside `i128`.
proof fn lemma_growth_in_range(apr: int, elapsed: int)
    requires
        0 <= apr <= SCALAR_7,
        0 <= elapsed <= u64::MAX,
    ensures
        0 <= 100_000 * apr <= 1_000_000_000_000,
        0 <= 100_000 * apr * elapsed <= 1_000_000_000_000 * 0xffff_ffff_ffff_ffff,
        SCALAR_12 <= target_growth_rate(apr, elapsed),
        target_growth_rate(apr, elapsed) <= 1_000_000_000_000 * 0xffff_ffff_ffff_ffff + SCALAR_12,
{
    let a = 100_000 * apr;
    assert(0 <= a * elapsed <= 1_000_000_000_000 * 0xffff_ffff_ffff_ffff) by (nonlinear_arith)
        requires
            0 <= a <= 1_000_000_000_000,
            0 <= elapsed <= 0xffff_ffff_ffff_ffff,
    ;
    let y: int = SECONDS_PER_YEAR as int;
    let q = mul_div_ceil(a, elapsed, y);
    lemma_mul_div_bounds(a, elapsed, y);
    assert(0 <= q <= a * elapsed) by (nonlinear_arith)
        requires
            a * elapsed >= 0,
            q * y - y < a * elapsed <= q * y,
            y >= 1,
    ;
}

/// The flat-mode cut never exceeds the depositors' b-tokens.
pub(crate) proof fn lemma_flat_take_bounded(b_tokens: int, old_rate: int, new_rate: int, take_rate: int)
    requires
        b_tokens >= 0,
        old_rate > 0,
        new_rate > 0,
        0 <= take_rate <= SCALAR_7,
    ensures
        flat_take(b_tokens, old_rate, new_rate, take_rate) <= b_tokens,
{
    let k: int = SCALAR_12 as int;
    let s: int = SCALAR_7 as int;
    let growth = mul_div_floor(b_tokens, new_rate - old_rate, k);
    let fee_value = mul_div_floor(growth, take_rate, s);
    let take = mul_div_floor(fee_value, k, new_rate);
    lemma_mul_div_bounds(b_tokens, new_rate - old_rate, k);
    lemma_mul_div_bounds(growth, take_rate, s);
    lemma_mul_div_bounds(fee_value, k, new_rate);
    if growth <= 0 {
        assert(take <= 0) by (nonlinear_arith)
            requires
                growth <= 0,
                take_rate >= 0,
                fee_value * s <= growth * take_rate,
                s > 0,
                take * new_rate <= fee_value * k,
                k > 0,
                new_rate > 0,
        ;
    } else {
        assert(fee_value <= growth) by (nonlinear_arith)
            requires
                growth > 0,
                take_rate <= s,
                fee_value * s <= growth * take_rate,
                s > 0,
        ;
        assert(take * new_rate <= b_tokens * new_rate) by (nonlinear_arith)
            requires
                take * new_rate <= fee_value * k,
                fee_value <= growth,
                growth * k <= b_tokens * (new_rate - old_rate),
                old_rate > 0,
                b_tokens >= 0,
                k > 0,
        ;
        assert(take <= b_tokens) by (nonlinear_arith)
            requires
                take * new_rate <= b_tokens * new_rate,
                new_rate > 0,
        ;
    }
}

/// The APR-capped cut never exceeds the depositors' b-tokens.
pub(crate) proof fn lemma_capped_take_bounded(b_tokens: int, old_rate: int, new_rate: int, apr: int, elapsed: int)
    requires
        b_tokens >= 0,
        old_rate > 0,
        new_rate > 0,
        0 <= apr <= SCALAR_7,
        0 <= elapsed <= u64::MAX,
    ensures
        capped_take(b_tokens, old_rate, new_rate, apr, elapsed) <= b_tokens,
        old_rate <= target_b_rate(old_rate, apr, elapsed),
{
    let k: int = SCALAR_12 as int;
    let g = target_growth_rate(apr, elapsed);
    lemma_growth_in_range(apr, elapsed);
    let target = target_b_rate(old_rate, apr, elapsed);
    lemma_mul_div_bounds(old_rate, g, k);
    assert(old_rate <= target) by (nonlinear_arith)
        requires
            old_rate * g <= target * k,
            g >= k,
            old_rate > 0,
            k > 0,
    ;
    if target < new_rate {
        let take = mul_div_floor(b_tokens, new_rate - target, new_rate);
        lemma_mul_div_bounds(b_tokens, new_rate - target, new_rate);
        assert(take <= b_tokens) by (nonlinear_arith)
            requires
                take * new_rate <= b_tokens * (new_rate - target),
                target > 0,
                b_tokens >= 0,
                new_rate > 0,
        ;
    }
}

/// The rate update as an outcome: the updated record, or the arithmetic error
/// when an intermediate value of the fee computation does not fit.
pub open spec fn update_outcome(v: ReserveVault, now: u64, new_rate: i128, mode: FeeMode) -> Result<ReserveVault, FeeVaultError> {
    if v.update_fits(now, new_rate, mode) {
        Ok(v.spec_updated(now, new_rate, mode))
    } else {
        Err(FeeVaultError::ArithmeticError)
    }
}

/// A deposit of `amount` underlying into the up-to-date record `v` for a user
/// holding `user_shares`: the new record, the user's new balance, the b-tokens
/// minted and the shares minted.
pub open spec fn deposit_into(v: ReserveVault, user_shares: i128, amount: i128) -> Result<
    (ReserveVault, i128, i128, i128),
    FeeVaultError,
> {
    if !fits_i128(amount * SCALAR_12) {
        Err(FeeVaultError::ArithmeticError)
    } else {
        let b = v.spec_underlying_to_b_tokens_down(amount as int);
        if b <= 0 {
            Err(FeeVaultError::InvalidBTokensMinted)
        } else if !v.b_tokens_to_shares_fits(b) {
            Err(FeeVaultError::ArithmeticError)
        } else {
            let s = v.spec_b_tokens_to_shares_down(b);
            if s <= 0 {
                Err(FeeVaultError::InvalidSharesMinted)
            } else if !fits_i128(v.total_shares + s) || v.held_b_tokens() + b > i128::MAX
                || !fits_i128(user_shares + s) {
                Err(FeeVaultError::ArithmeticError)
            } else {
                Ok(
                    (
                        ReserveVault {
                            total_shares: (v.total_shares + s) as i128,
                            total_b_tokens: (v.total_b_tokens + b) as i128,
                            ..v
                        },
                        (user_shares + s) as i128,
                        b as i128,
                        s as i128,
                    ),
                )
            }
        }
    }
}

/// Whether `shares` left with a user of `v` are dust: shares the vault holds
/// that it values at no underlying token, so that they could never be
/// withdrawn.
pub open spec fn is_dust(v: ReserveVault, shares: int) -> bool {
    &&& 0 < shares <= v.total_shares
    &&& fits_i128(shares * v.total_b_tokens)
    &&& fits_i128(v.spec_shares_to_b_tokens_down(shares) * v.b_rate)
    &&& v.spec_b_tokens_to_underlying_down(v.spec_shares_to_b_tokens_down(shares)) == 0
}

/// A withdrawal of `amount` underlying from the up-to-date record `v` by a
/// user holding `user_shares`: the new record, the user's new balance, the
/// b-tokens burnt and the shares burnt. Both conversions round up, against the
/// withdrawer. Shares the withdrawal would leave as dust are burnt with it, so
/// the user's balance ends at zero.
pub open spec fn withdraw_from(v: ReserveVault, user_shares: i128, amount: i128) -> Result<
    (ReserveVault, i128, i128, i128),
    FeeVaultError,
> {
    if !fits_i128(amount * SCALAR_12) {
        Err(FeeVaultError::ArithmeticError)
    } else {
        let b = v.spec_underlying_to_b_tokens_up(amount as int);
        if !v.b_tokens_to_shares_fits(b) {
            Err(FeeVaultError::ArithmeticError)
        } else {
            let s = v.spec_b_tokens_to_shares_up(b);
            if s <= 0 {
                Err(FeeVaultError::InvalidBTokensBurnt)
            } else if v.total_shares < s || v.total_b_tokens < b {
                Err(FeeVaultError::InsufficientReserves)
            } else if s > user_shares {
                Err(FeeVaultError::BalanceError)
            } else {
                let after = ReserveVault {
                    total_shares: (v.total_shares - s) as i128,
                    total_b_tokens: (v.total_b_tokens - b) as i128,
                    ..v
                };
                let rest = user_shares - s;
                if is_dust(after, rest) {
                    Ok(
                        (
                            ReserveVault { total_shares: (after.total_shares - rest) as i128, ..after },
                            0,
                            b as i128,
                            user_shares,
                        ),
                    )
                } else {
                    Ok((after, rest as i128, b as i128, s as i128))
                }
            }
        }
    }
}

/// A claim of all accrued fees from the up-to-date record `v`: the new record,
/// the b-tokens claimed and their underlying value, rounded down.
pub open spec fn claim_from(v: ReserveVault) -> Result<(ReserveVault, i128, i128), FeeVaultError> {
    let b = v.accrued_fees;
    if b <= 0 {
        Err(FeeVaultError::InsufficientAccruedFees)
    } else if !fits_i128(b * v.b_rate) {
        Err(FeeVaultError::ArithmeticError)
    } else {
        Ok((ReserveVault { accrued_fees: 0, ..v }, b, v.spec_b_tokens_to_underlying_down(b as int) as i128))
    }
}

/// A claim of `amount` b-tokens of the accrued fees from the up-to-date record
/// `v`: the new record, the b-tokens claimed and their underlying value,
/// rounded down.
pub open spec fn claim_amount_from(v: ReserveVault, amount: i128) -> Result<(ReserveVault, i128, i128), FeeVaultError> {
    if amount <= 0 {
        Err(FeeVaultError::InvalidAmount)
    } else if amount > v.accrued_fees {
        Err(FeeVaultError::InsufficientAccruedFees)
    } else if !fits_i128(amount * v.b_rate) {
        Err(FeeVaultError::ArithmeticError)
    } else {
        Ok(
            (
                ReserveVault { accrued_fees: (v.accrued_fees - amount) as i128, ..v },
                amount,
                v.spec_b_tokens_to_underlying_down(amount as int) as i128,
            ),
        )
    }
}

pub open spec fn claim_amount_outcome(v: ReserveVault, amount: i128, now: u64, new_rate: i128, mode: FeeMode) -> Result<
    (ReserveVault, i128, i128),
    FeeVaultError,
> {
    match update_outcome(v, now, new_rate, mode) {
        Ok(u) => claim_amount_from(u, amount),
        Err(e) => Err(e),
    }
}

pub open spec fn deposit_outcome(
    v: ReserveVault,
    user_shares: i128,
    amount: i128,
    now: u64,
    new_rate: i128,
    mode: FeeMode,
) -> Result<(ReserveVault, i128, i128, i128), FeeVaultError> {
    match update_outcome(v, now, new_rate, mode) {
        Ok(u) => deposit_into(u, user_shares, amount),
        Err(e) => Err(e),
    }
}

pub open spec fn withdraw_outcome(
    v: ReserveVault,
    user_shares: i128,
    amount: i128,
    now: u64,
    new_rate: i128,
    mode: FeeMode,
) -> Result<(ReserveVault, i128, i128, i128), FeeVaultError> {
    match update_outcome(v, now, new_rate, mode) {
        Ok(u) => withdraw_from(u, user_shares, amount),
        Err(e) => Err(e),
    }
}

pub open spec fn claim_outcome(v: ReserveVault, now: u64, new_rate: i128, mode: FeeMode) -> Result<
    (ReserveVault, i128, i128),
    FeeVaultError,
> {
    match update_outcome(v, now, new_rate, mode) {
        Ok(u) => claim_from(u),
        Err(e) => Err(e),
    }
}

/// The reserve vault brought up to date with the pool's current b-rate.
pub fn get_reserve_vault_updated(vault: &ReserveVault, now: u64, new_rate: i128, fee_mode: &FeeMode) -> (r: Result<
    ReserveVault,
    FeeVaultError,
>)
    requires
        vault.wf(),
        fee_mode.wf(),
        now >= vault.last_update_timestamp,
    ensures
        r == update_outcome(*vault, now, new_rate, *fee_mode),
        r matches Ok(u) ==> u.wf(),
{
    let mut updated = *vault;
    match updated.update_rate(now, new_rate, fee_mode) {
        Ok(()) => Ok(updated),
        Err(e) => Err(e),
    }
}

/// Deposit `amount` of underlying into the reserve vault for a user holding
/// `user_shares`. Does not perform the call to the pool to deposit the tokens.
///
/// Brings the vault up to date with `new_rate` at `now` first. Returns the
/// b-tokens minted to the vault and the shares minted to the user. On an error
/// neither the vault nor the user's balance changes.
pub fn deposit(
    vault: &mut ReserveVault,
    user_shares: &mut i128,
    amount: i128,
    now: u64,
    new_rate: i128,
    fee_mode: &FeeMode,
) -> (r: Result<(i128, i128), FeeVaultError>)
    requires
        old(vault).wf(),
        fee_mode.wf(),
        now >= old(vault).last_update_timestamp,
    ensures
        final(vault).wf(),
        deposit_outcome(*old(vault), *old(user_shares), amount, now, new_rate, *fee_mode) matches Ok(
            (v, u, b, s),
        ) ==> r == Ok::<(i128, i128), FeeVaultError>((b, s)) && *final(vault) == v && *final(user_shares) == u,
        deposit_outcome(*old(vault), *old(user_shares), amount, now, new_rate, *fee_mode) matches Err(e)
            ==> r == Err::<(i128, i128), FeeVaultError>(e) && *final(vault) == *old(vault)
            && *final(user_shares) == *old(user_shares),
{
    let mut v = *vault;
    match v.update_rate(now, new_rate, fee_mode) {
        Ok(()) => {},
        Err(e) => return Err(e),
    }
    if !mul_fits(amount, SCALAR_12) {
        return Err(FeeVaultError::ArithmeticError);
    }
    let b_tokens_amount = v.underlying_to_b_tokens_down(amount);
    if let Err(e) = require_positive(b_tokens_amount, FeeVaultError::InvalidBTokensMinted) {
        return Err(e);
    }
    if v.total_shares != 0 && v.total_b_tokens != 0 && !mul_fits(b_tokens_amount, v.total_shares) {
        return Err(FeeVaultError::ArithmeticError);
    }
    let share_amount = v.b_tokens_to_shares_down(b_tokens_amount);
    if let Err(e) = require_positive(share_amount, FeeVaultError::InvalidSharesMinted) {
        return Err(e);
    }
    let total_shares = match v.total_shares.checked_add(share_amount) {
        Some(t) => t,
        None => return Err(FeeVaultError::ArithmeticError),
    };
    let held_b_tokens = v.total_b_tokens + v.accrued_fees;
    if b_tokens_amount > i128::MAX - held_b_tokens {
        return Err(FeeVaultError::ArithmeticError);
    }
    let new_user_shares = match user_shares.checked_add(share_amount) {
        Some(u) => u,
        None => return Err(FeeVaultError::ArithmeticError),
    };
    v.total_shares = total_shares;
    v.total_b_tokens = v.total_b_tokens + b_tokens_amount;
    *vault = v;
    *user_shares = new_user_shares;
    Ok((b_tokens_amount, share_amount))
}

/// Withdraw `amount` of underlying from the reserve vault for a user holding
/// `user_shares`. Does not perform the call to the pool to withdraw the tokens.
///
/// Brings the vault up to date with `new_rate` at `now` first. Returns the
/// b-tokens burnt from the vault and the shares burnt from the user; shares
/// that would be left worth no underlying token are burnt too. On an error
/// neither the vault nor the user's balance changes.
pub fn withdraw(
    vault: &mut ReserveVault,
    user_shares: &mut i128,
    amount: i128,
    now: u64,
    new_rate: i128,
    fee_mode: &FeeMode,
) -> (r: Result<(i128, i128), FeeVaultError>)
    requires
        old(vault).wf(),
        fee_mode.wf(),
        now >= old(vault).last_update_timestamp,
    ensures
        final(vault).wf(),
        withdraw_outcome(*old(vault), *old(user_shares), amount, now, new_rate, *fee_mode) matches Ok(
            (v, u, b, s),
        ) ==> r == Ok::<(i128, i128), FeeVaultError>((b, s)) && *final(vault) == v && *final(user_shares) == u,
        withdraw_outcome(*old(vault), *old(user_shares), amount, now, new_rate, *fee_mode) matches Err(e)
            ==> r == Err::<(i128, i128), FeeVaultError>(e) && *final(vault) == *old(vault)
            && *final(user_shares) == *old(user_shares),
{
    let mut v = *vault;
    match v.update_rate(now, new_rate, fee_mode) {
        Ok(()) => {},
        Err(e) => return Err(e),
    }
    if !mul_fits(amount, SCALAR_12) {
        return Err(FeeVaultError::ArithmeticError);
    }
    let b_tokens_amount = v.underlying_to_b_tokens_up(amount);
    if v.total_shares != 0 && v.total_b_tokens != 0 && !mul_fits(b_tokens_amount, v.total_shares) {
        return Err(FeeVaultError::ArithmeticError);
    }
    let share_amount = v.b_tokens_to_shares_up(b_tokens_amount);
    if let Err(e) = require_positive(share_amount, FeeVaultError::InvalidBTokensBurnt) {
        return Err(e);
    }
    if v.total_shares < share_amount || v.total_b_tokens < b_tokens_amount {
        return Err(FeeVaultError::InsufficientReserves);
    }
    if share_amount > *user_shares {
        return Err(FeeVaultError::BalanceError);
    }
    proof {
        if !v.at_bootstrap_rate() {
            lemma_mul_div_bounds(b_tokens_amount as int, v.total_shares as int, v.total_b_tokens as int);
            assert(b_tokens_amount > 0) by (nonlinear_arith)
                requires
                    share_amount * v.total_b_tokens - v.total_b_tokens < b_tokens_amount * v.total_shares,
                    share_amount >= 1,
                    v.total_shares > 0,
                    v.total_b_tokens > 0,
            ;
        }
    }
    v.total_shares = v.total_shares - share_amount;
    v.total_b_tokens = v.total_b_tokens - b_tokens_amount;
    let rest = *user_shares - share_amount;
    // burn what would be left as dust along with the withdrawal
    if rest > 0 && rest <= v.total_shares && mul_fits(rest, v.total_b_tokens) {
        let rest_b_tokens = v.shares_to_b_tokens_down(rest);
        if mul_fits(rest_b_tokens, v.b_rate) && v.b_tokens_to_underlying_down(rest_b_tokens) == 0 {
            let burnt = *user_shares;
            v.total_shares = v.total_shares - rest;
            *vault = v;
            *user_shares = 0;
            return Ok((b_tokens_amount, burnt));
        }
    }
    *vault = v;
    *user_shares = rest;
    Ok((b_tokens_amount, share_amount))
}

/// Claim all fees accrued to the admin. Does not perform the call to the pool
/// to withdraw the fees.
///
/// Brings the vault up to date with `new_rate` at `now` first. Returns the
/// b-tokens claimed and their value in underlying tokens. On an error the vault
/// does not change.
pub fn claim_fees(vault: &mut ReserveVault, now: u64, new_rate: i128, fee_mode: &FeeMode) -> (r: Result<
    (i128, i128),
    FeeVaultError,
>)
    requires
        old(vault).wf(),
        fee_mode.wf(),
        now >= old(vault).last_update_timestamp,
    ensures
        final(vault).wf(),
        claim_outcome(*old(vault), now, new_rate, *fee_mode) matches Ok((v, b, u)) ==> r == Ok::<
            (i128, i128),
            FeeVaultError,
        >((b, u)) && *final(vault) == v,
        claim_outcome(*old(vault), now, new_rate, *fee_mode) matches Err(e) ==> r == Err::<
            (i128, i128),
            FeeVaultError,
        >(e) && *final(vault) == *old(vault),
{
    let mut v = *vault;
    match v.update_rate(now, new_rate, fee_mode) {
        Ok(()) => {},
        Err(e) => return Err(e),
    }
    let b_tokens_amount = v.accrued_fees;
    if let Err(e) = require_positive(b_tokens_amount, FeeVaultError::InsufficientAccruedFees) {
        return Err(e);
    }
    if !mul_fits(b_tokens_amount, v.b_rate) {
        return Err(FeeVaultError::ArithmeticError);
    }
    let underlying_amount = v.b_tokens_to_underlying_down(b_tokens_amount);
    v.accrued_fees = 0;
    *vault = v;
    Ok((b_tokens_amount, underlying_amount))
}

/// Claim `amount` b-tokens of the fees accrued to the admin. Does not perform
/// the call to the pool to withdraw the fees.
///
/// Brings the vault up to date with `new_rate` at `now` first. Returns the
/// b-tokens claimed and their value in underlying tokens. On an error the vault
/// does not change.
pub fn claim_fees_amount(vault: &mut ReserveVault, amount: i128, now: u64, new_rate: i128, fee_mode: &FeeMode) -> (r:
    Result<(i128, i128), FeeVaultError>)
    requires
        old(vault).wf(),
        fee_mode.wf(),
        now >= old(vault).last_update_timestamp,
    ensures
        final(vault).wf(),
        claim_amount_outcome(*old(vault), amount, now, new_rate, *fee_mode) matches Ok((v, b, u)) ==> r == Ok::<
            (i128, i128),
            FeeVaultError,
        >((b, u)) && *final(vault) == v,
        claim_amount_outcome(*old(vault), amount, now, new_rate, *fee_mode) matches Err(e) ==> r == Err::<
            (i128, i128),
            FeeVaultError,
        >(e) && *final(vault) == *old(vault),
{
    let mut v = *vault;
    match v.update_rate(now, new_rate, fee_mode) {
        Ok(()) => {},
        Err(e) => return Err(e),
    }
    if let Err(e) = require_positive(amount, FeeVaultError::InvalidAmount) {
        return Err(e);
    }
    if amount > v.accrued_fees {
        return Err(FeeVaultError::InsufficientAccruedFees);
    }
    if !mul_fits(amount, v.b_rate) {
        return Err(FeeVaultError::ArithmeticError);
    }
    let underlying_amount = v.b_tokens_to_underlying_down(amount);
    v.accrued_fees = v.accrued_fees - amount;
    *vault = v;
    Ok((amount, underlying_amount))
}

/// Whether each record is well formed, has a rate observed for it, and was
/// last updated no later than `now`.
pub open spec fn can_update_all(vaults: Seq<ReserveVault>, now: u64, rates: Seq<i128>) -> bool {
    &&& vaults.len() == rates.len()
    &&& forall|i: int|
        0 <= i < vaults.len() ==> {
            &&& #[trigger] vaults[i].wf()
            &&& now >= vaults[i].last_update_timestamp
        }
}

/// Accrues interest and updates the b-rate of every reserve, `rates[i]` being
/// the pool's current b-rate of `vaults[i]`. On an error no record changes.
pub fn accrue_interest_for_all_reserves(
    vaults: &mut Vec<ReserveVault>,
    now: u64,
    rates: &Vec<i128>,
    fee_mode: &FeeMode,
) -> (r: Result<(), FeeVaultError>)
    requires
        can_update_all(old(vaults)@, now, rates@),
        fee_mode.wf(),
    ensures
        r is Ok <==> forall|i: int|
            0 <= i < old(vaults)@.len() ==> #[trigger] old(vaults)@[i].update_fits(now, rates@[i], *fee_mode),
        r is Ok ==> final(vaults)@.len() == old(vaults)@.len() && forall|i: int|
            0 <= i < old(vaults)@.len() ==> #[trigger] final(vaults)@[i] == old(vaults)@[i].spec_updated(
                now,
                rates@[i],
                *fee_mode,
            ),
        r is Err ==> r == Err::<(), FeeVaultError>(FeeVaultError::ArithmeticError) && final(vaults)@ == old(
            vaults,
        )@,
        forall|i: int| 0 <= i < final(vaults)@.len() ==> #[trigger] final(vaults)@[i].wf(),
{
    let mut updated: Vec<ReserveVault> = Vec::new();
    let n = vaults.len();
    for i in 0..n
        invariant
            n == vaults@.len(),
            can_update_all(vaults@, now, rates@),
            fee_mode.wf(),
            updated@.len() == i,
            forall|j: int| 0 <= j < i ==> #[trigger] vaults@[j].update_fits(now, rates@[j], *fee_mode),
            forall|j: int|
                0 <= j < i ==> #[trigger] updated@[j] == vaults@[j].spec_updated(now, rates@[j], *fee_mode),
            forall|j: int| 0 <= j < i ==> #[trigger] updated@[j].wf(),
    {
        let mut v = vaults[i];
        assert(vaults@[i as int].wf());
        match v.update_rate(now, rates[i], fee_mode) {
            Ok(()) => updated.push(v),
            Err(e) => {
                assert(!vaults@[i as int].update_fits(now, rates@[i as int], *fee_mode));
                return Err(e);
            },
        }
    }
    *vaults = updated;
    Ok(())
}

} // verus!
