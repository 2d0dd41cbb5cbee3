//! What the accounting guarantees across operations.
use crate::constants::SCALAR_12;
use crate::errors::FeeVaultError;
use crate::fixed_point::{fits_i128, lemma_mul_div_bounds, lemma_mul_div_fits};
use crate::reserve_vault::{
    claim_amount_from, claim_amount_outcome, claim_from, claim_outcome, deposit_outcome, lemma_capped_take_bounded, lemma_flat_take_bounded,
    update_outcome, withdraw_from, withdraw_outcome, ReserveVault,
};
use crate::storage::FeeMode;
use vstd::prelude::*;

verus! {

/// One call on a reserve vault, with the time and the pool's b-rate it observes.
pub enum VaultAction {
    Deposit { user_shares: i128, amount: i128, now: u64, new_rate: i128 },
    Withdraw { user_shares: i128, amount: i128, now: u64, new_rate: i128 },
    ClaimFees { now: u64, new_rate: i128 },
    ClaimFeesAmount { amount: i128, now: u64, new_rate: i128 },
}

impl VaultAction {
    pub open spec fn now(self) -> u64 {
        match self {
            VaultAction::Deposit { now, .. } => now,
            VaultAction::Withdraw { now, .. } => now,
            VaultAction::ClaimFees { now, .. } => now,
            VaultAction::ClaimFeesAmount { now, .. } => now,
        }
    }

    pub open spec fn new_rate(self) -> i128 {
        match self {
            VaultAction::Deposit { new_rate, .. } => new_rate,
            VaultAction::Withdraw { new_rate, .. } => new_rate,
            VaultAction::ClaimFees { new_rate, .. } => new_rate,
            VaultAction::ClaimFeesAmount { new_rate, .. } => new_rate,
        }
    }
}

/// The record after `action`, and the b-tokens the call moves into the pool
/// (negative when it takes them out). A failed call changes nothing.
pub open spec fn apply_action(v: ReserveVault, action: VaultAction, mode: FeeMode) -> (ReserveVault, int) {
    match action {
        VaultAction::Deposit { user_shares, amount, now, new_rate } => match deposit_outcome(
            v,
            user_shares,
            amount,
            now,
            new_rate,
            mode,
        ) {
            Ok((next, _, b_tokens, _)) => (next, b_tokens as int),
            Err(_) => (v, 0),
        },
        VaultAction::Withdraw { user_shares, amount, now, new_rate } => match withdraw_outcome(
            v,
            user_shares,
            amount,
            now,
            new_rate,
            mode,
        ) {
            Ok((next, _, b_tokens, _)) => (next, -b_tokens),
            Err(_) => (v, 0),
        },
        VaultAction::ClaimFees { now, new_rate } => match claim_outcome(v, now, new_rate, mode) {
            Ok((next, b_tokens, _)) => (next, -b_tokens),
            Err(_) => (v, 0),
        },
        VaultAction::ClaimFeesAmount { amount, now, new_rate } => match claim_amount_outcome(
            v,
            amount,
            now,
            new_rate,
            mode,
        ) {
            Ok((next, b_tokens, _)) => (next, -b_tokens),
            Err(_) => (v, 0),
        },
    }
}

/// The record after `actions`, and the net b-tokens they moved into the pool.
pub open spec fn run_actions(v: ReserveVault, actions: Seq<VaultAction>, mode: FeeMode) -> (ReserveVault, int)
    decreases actions.len(),
{
    if actions.len() == 0 {
        (v, 0)
    } else {
        let (next, moved) = apply_action(v, actions[0], mode);
        let (last, rest) = run_actions(next, actions.drop_first(), mode);
        (last, moved + rest)
    }
}

/// Whether every call of `actions` meets its precondition: a clock that has
/// not gone back since the record's last update.
pub open spec fn callable(v: ReserveVault, actions: Seq<VaultAction>, mode: FeeMode) -> bool
    decreases actions.len(),
{
    if actions.len() == 0 {
        true
    } else {
        &&& actions[0].now() >= v.last_update_timestamp
        &&& callable(apply_action(v, actions[0], mode).0, actions.drop_first(), mode)
    }
}

/// A rate update keeps the record well formed and moves b-tokens only from the
/// depositors to the admin: the vault's total holding is unchanged.
pub proof fn lemma_update_keeps_holding(v: ReserveVault, now: u64, new_rate: i128, mode: FeeMode)
    requires
        v.wf(),
        mode.wf(),
        now >= v.last_update_timestamp,
        v.update_fits(now, new_rate, mode),
    ensures
        v.spec_updated(now, new_rate, mode).wf(),
        v.spec_updated(now, new_rate, mode).held_b_tokens() == v.held_b_tokens(),
        v.spec_updated(now, new_rate, mode).total_shares == v.total_shares,
{
    if now != v.last_update_timestamp && new_rate != v.b_rate && v.admin_take(now, new_rate, mode) > 0 {
        if mode.is_apr_capped {
            lemma_capped_take_bounded(
                v.total_b_tokens as int,
                v.b_rate as int,
                new_rate as int,
                mode.value as int,
                now - v.last_update_timestamp,
            );
        } else {
            lemma_flat_take_bounded(
                v.total_b_tokens as int,
                v.b_rate as int,
                new_rate as int,
                mode.value as int,
            );
        }
    }
}

/// One call keeps the record well formed, and changes the vault's holding by
/// exactly the b-tokens the call moves into or out of the pool.
pub proof fn lemma_action_keeps_solvency(v: ReserveVault, action: VaultAction, mode: FeeMode)
    requires
        v.wf(),
        mode.wf(),
        action.now() >= v.last_update_timestamp,
    ensures
        apply_action(v, action, mode).0.wf(),
        apply_action(v, action, mode).0.held_b_tokens() == v.held_b_tokens() + apply_action(v, action, mode).1,
{
    let now = action.now();
    let new_rate = action.new_rate();
    if v.update_fits(now, new_rate, mode) {
        lemma_update_keeps_holding(v, now, new_rate, mode);
        let u = v.spec_updated(now, new_rate, mode);
        let k: int = SCALAR_12 as int;
        match action {
            VaultAction::Deposit { user_shares, amount, .. } => {
                if fits_i128(amount * k) {
                    lemma_mul_div_fits(amount as int, k, u.b_rate as int);
                    let b = u.spec_underlying_to_b_tokens_down(amount as int);
                    if !u.at_bootstrap_rate() && u.b_tokens_to_shares_fits(b) {
                        lemma_mul_div_fits(b, u.total_shares as int, u.total_b_tokens as int);
                    }
                }
            },
            VaultAction::Withdraw { user_shares, amount, .. } => {
                if fits_i128(amount * k) {
                    lemma_mul_div_fits(amount as int, k, u.b_rate as int);
                    let b = u.spec_underlying_to_b_tokens_up(amount as int);
                    if !u.at_bootstrap_rate() && u.b_tokens_to_shares_fits(b) {
                        lemma_mul_div_fits(b, u.total_shares as int, u.total_b_tokens as int);
                        lemma_mul_div_bounds(b, u.total_shares as int, u.total_b_tokens as int);
                        let s = u.spec_b_tokens_to_shares_up(b);
                        assert(s > 0 ==> b > 0) by (nonlinear_arith)
                            requires
                                s * u.total_b_tokens - u.total_b_tokens < b * u.total_shares,
                                u.total_shares > 0,
                                u.total_b_tokens > 0,
                        ;
                    }
                }
            },
            _ => {},
        }
    }
}

/// Solvency: over any sequence of deposits, withdrawals and fee claims, the
/// b-tokens the vault accounts for (the depositors' plus the admin's) change by
/// exactly the b-tokens supplied to the pool minus those taken out of it. They
/// can never exceed what was actually supplied.
pub proof fn lemma_solvency(v: ReserveVault, actions: Seq<VaultAction>, mode: FeeMode)
    requires
        v.wf(),
        mode.wf(),
        callable(v, actions, mode),
    ensures
        run_actions(v, actions, mode).0.wf(),
        run_actions(v, actions, mode).0.held_b_tokens() == v.held_b_tokens() + run_actions(v, actions, mode).1,
    decreases actions.len(),
{
    if actions.len() > 0 {
        lemma_action_keeps_solvency(v, actions[0], mode);
        lemma_solvency(apply_action(v, actions[0], mode).0, actions.drop_first(), mode);
    }
}

/// Bootstrap: the first deposit into a reserve that has no shares mints
/// exactly as many shares as b-tokens.
pub proof fn lemma_bootstrap_deposit_one_to_one(
    v: ReserveVault,
    user_shares: i128,
    amount: i128,
    now: u64,
    new_rate: i128,
    mode: FeeMode,
)
    requires
        v.wf(),
        mode.wf(),
        v.total_shares == 0,
        v.total_b_tokens == 0,
    ensures
        deposit_outcome(v, user_shares, amount, now, new_rate, mode) matches Ok((_, _, b_tokens, shares))
            ==> shares == b_tokens,
{
}

/// A rate update that observes the stored b-rate accrues no fee: the
/// depositors' b-tokens and the admin's accrued fees are unchanged.
pub proof fn lemma_flat_rate_accrues_no_fee(v: ReserveVault, now: u64, mode: FeeMode)
    ensures
        v.update_fits(now, v.b_rate, mode),
        v.spec_updated(now, v.b_rate, mode).accrued_fees == v.accrued_fees,
        v.spec_updated(now, v.b_rate, mode).total_b_tokens == v.total_b_tokens,
        v.spec_updated(now, v.b_rate, mode).b_rate == v.b_rate,
{
}

/// Changing the fee mode is not retroactive: once interest is accrued under the
/// old mode at `now`, a rate update at the same instant under any mode changes
/// nothing, and later growth is measured from the b-rate observed at `now`.
pub proof fn lemma_fee_mode_change_not_retroactive(
    v: ReserveVault,
    now: u64,
    new_rate: i128,
    old_mode: FeeMode,
    new_mode: FeeMode,
    any_rate: i128,
)
    requires
        now >= v.last_update_timestamp,
        now != v.last_update_timestamp,
    ensures
        v.spec_updated(now, new_rate, old_mode).last_update_timestamp == now,
        v.spec_updated(now, new_rate, old_mode).b_rate == new_rate,
        v.spec_updated(now, new_rate, old_mode).update_fits(now, any_rate, new_mode),
        v.spec_updated(now, new_rate, old_mode).spec_updated(now, any_rate, new_mode) == v.spec_updated(
            now,
            new_rate,
            old_mode,
        ),
{
}

/// A withdrawal of a positive amount up to the computed underlying value of a
/// user's shares succeeds, burns at most the user's shares, and takes at most
/// the b-tokens those shares are worth.
pub proof fn lemma_withdrawal_within_position_succeeds(v: ReserveVault, user_shares: i128, amount: i128)
    requires
        v.wf(),
        v.total_shares > 0,
        v.total_b_tokens > 0,
        0 < user_shares <= v.total_shares,
        fits_i128(user_shares * v.total_b_tokens),
        fits_i128(v.spec_shares_to_b_tokens_down(user_shares as int) * v.b_rate),
        0 < amount <= v.spec_b_tokens_to_underlying_down(v.spec_shares_to_b_tokens_down(user_shares as int)),
    ensures
        withdraw_from(v, user_shares, amount) matches Ok((_, remaining, burnt, shares_burnt)) && 0 < shares_burnt
            <= user_shares && 0 < burnt <= v.spec_shares_to_b_tokens_down(user_shares as int) && remaining
            == user_shares - shares_burnt,
        v.spec_underlying_to_b_tokens_up(amount as int) <= v.spec_shares_to_b_tokens_down(user_shares as int),
        v.spec_b_tokens_to_shares_up(v.spec_underlying_to_b_tokens_up(amount as int)) <= user_shares,
{
    let k: int = SCALAR_12 as int;
    let r: int = v.b_rate as int;
    let total_shares: int = v.total_shares as int;
    let total_b: int = v.total_b_tokens as int;
    let s: int = user_shares as int;
    let a: int = amount as int;
    let b = v.spec_shares_to_b_tokens_down(s);
    lemma_mul_div_bounds(s, total_b, total_shares);
    assert(0 <= b <= total_b && b * total_shares <= s * total_b) by (nonlinear_arith)
        requires
            b * total_shares <= s * total_b < b * total_shares + total_shares,
            0 < total_shares,
            0 < total_b,
            0 < s <= total_shares,
    ;
    let u = v.spec_b_tokens_to_underlying_down(b);
    lemma_mul_div_bounds(b, r, k);
    let b2 = v.spec_underlying_to_b_tokens_up(a);
    lemma_mul_div_bounds(a, k, r);
    assert(0 < a * k <= b * r && 0 < b2 <= b) by (nonlinear_arith)
        requires
            b2 * r - r < a * k <= b2 * r,
            u * k <= b * r,
            0 < a <= u,
            r > 0,
            k > 0,
    ;
    let sh = v.spec_b_tokens_to_shares_up(b2);
    lemma_mul_div_bounds(b2, total_shares, total_b);
    assert(0 < b2 * total_shares <= s * total_b && 0 < sh <= s) by (nonlinear_arith)
        requires
            sh * total_b - total_b < b2 * total_shares <= sh * total_b,
            b * total_shares <= s * total_b,
            0 < b2 <= b,
            0 < total_shares,
            0 < total_b,
    ;
}

/// Withdrawing a user's whole position, as its computed underlying value,
/// leaves the user no shares: whatever the rounding would leave behind is
/// worth no underlying token and is burnt with the withdrawal.
pub proof fn lemma_full_withdrawal_clears_balance(v: ReserveVault, user_shares: i128)
    requires
        v.wf(),
        v.total_shares > 0,
        v.total_b_tokens > 0,
        0 < user_shares <= v.total_shares,
        fits_i128(user_shares * v.total_b_tokens),
        fits_i128(v.spec_shares_to_b_tokens_down(user_shares as int) * v.b_rate),
        v.spec_b_tokens_to_underlying_down(v.spec_shares_to_b_tokens_down(user_shares as int)) > 0,
    ensures
        ({
            let b_tokens = v.spec_shares_to_b_tokens_down(user_shares as int);
            let underlying = v.spec_b_tokens_to_underlying_down(b_tokens);
            withdraw_from(v, user_shares, underlying as i128) matches Ok((_, remaining, _, shares_burnt))
                && remaining == 0 && shares_burnt == user_shares
        }),
{
    let k: int = SCALAR_12 as int;
    let r: int = v.b_rate as int;
    let total_shares: int = v.total_shares as int;
    let total_b: int = v.total_b_tokens as int;
    let s: int = user_shares as int;
    let b = v.spec_shares_to_b_tokens_down(s);
    let u = v.spec_b_tokens_to_underlying_down(b);
    lemma_mul_div_bounds(b, r, k);
    assert(fits_i128(u)) by (nonlinear_arith)
        requires
            u * k <= b * r,
            fits_i128(b * r),
            u > 0,
            k > 0,
    ;
    lemma_withdrawal_within_position_succeeds(v, user_shares, u as i128);
    lemma_mul_div_bounds(s, total_b, total_shares);
    let b2 = v.spec_underlying_to_b_tokens_up(u);
    lemma_mul_div_bounds(u, k, r);
    let sh = v.spec_b_tokens_to_shares_up(b2);
    lemma_mul_div_bounds(b2, total_shares, total_b);
    let rest = s - sh;
    if rest > 0 {
        let after_shares = total_shares - sh;
        let after_b = total_b - b2;
        let after = ReserveVault {
            total_shares: after_shares as i128,
            total_b_tokens: after_b as i128,
            ..v
        };
        // what the rounding leaves is worth less than one underlying token
        assert((b - b2) * r < k) by (nonlinear_arith)
            requires
                b * r < u * k + k,
                u * k <= b2 * r,
        ;
        assert(total_shares * (rest * after_b) <= (s * total_b - b2 * total_shares) * after_shares)
            by (nonlinear_arith)
            requires
                sh * total_b >= b2 * total_shares,
                total_shares >= s,
                rest == s - sh,
                after_b == total_b - b2,
                after_shares == total_shares - sh,
        {
            assert((s * total_b - b2 * total_shares) * after_shares - total_shares * (rest * after_b) == (
            total_shares - s) * (sh * total_b - b2 * total_shares)) by (nonlinear_arith)
                requires
                    rest == s - sh,
                    after_b == total_b - b2,
                    after_shares == total_shares - sh,
            ;
            assert((total_shares - s) * (sh * total_b - b2 * total_shares) >= 0) by (nonlinear_arith)
                requires
                    sh * total_b >= b2 * total_shares,
                    total_shares >= s,
            ;
        }
        assert(rest * after_b < (b + 1 - b2) * after_shares) by (nonlinear_arith)
            requires
                total_shares * (rest * after_b) <= (s * total_b - b2 * total_shares) * after_shares,
                s * total_b < b * total_shares + total_shares,
                after_shares > 0,
                total_shares > 0,
        ;
        let c = after.spec_shares_to_b_tokens_down(rest);
        lemma_mul_div_bounds(rest, after_b, after_shares);
        assert(0 <= c && c * r < k && c * r <= b * r && 0 <= rest * after_b <= s * total_b) by (nonlinear_arith)
            requires
                c * after_shares <= rest * after_b < c * after_shares + after_shares,
                rest * after_b < (b + 1 - b2) * after_shares,
                (b - b2) * r < k,
                0 < rest <= s,
                0 <= after_b <= total_b,
                after_shares > 0,
                b2 > 0,
                r > 0,
        ;
        lemma_mul_div_bounds(c, r, k);
        assert(after.spec_b_tokens_to_underlying_down(c) == 0) by (nonlinear_arith)
            requires
                after.spec_b_tokens_to_underlying_down(c) * k <= c * r,
                c * r < after.spec_b_tokens_to_underlying_down(c) * k + k,
                0 <= c * r < k,
        ;
    }
}

/// A user cannot withdraw more than their position is worth: asking for one
/// underlying token more than the computed value of their shares fails, with
/// `BalanceError` unless the burn would also exceed the vault's totals
/// (`InsufficientReserves`) or overflow (`ArithmeticError`).
pub proof fn lemma_over_withdrawal_fails(v: ReserveVault, user_shares: i128)
    requires
        v.wf(),
        v.total_shares > 0,
        v.total_b_tokens > 0,
        0 < user_shares,
        fits_i128(user_shares * v.total_b_tokens),
        fits_i128(v.spec_shares_to_b_tokens_down(user_shares as int) * v.b_rate),
        v.spec_b_tokens_to_underlying_down(v.spec_shares_to_b_tokens_down(user_shares as int)) < i128::MAX,
    ensures
        ({
            let b_tokens = v.spec_shares_to_b_tokens_down(user_shares as int);
            let underlying = v.spec_b_tokens_to_underlying_down(b_tokens);
            let outcome = withdraw_from(v, user_shares, (underlying + 1) as i128);
            ||| outcome == Err::<(ReserveVault, i128, i128, i128), FeeVaultError>(FeeVaultError::BalanceError)
            ||| outcome == Err::<(ReserveVault, i128, i128, i128), FeeVaultError>(
                FeeVaultError::InsufficientReserves,
            )
            ||| outcome == Err::<(ReserveVault, i128, i128, i128), FeeVaultError>(FeeVaultError::ArithmeticError)
        }),
{
    let k: int = SCALAR_12 as int;
    let r: int = v.b_rate as int;
    let total_shares: int = v.total_shares as int;
    let total_b: int = v.total_b_tokens as int;
    let s: int = user_shares as int;
    let b = v.spec_shares_to_b_tokens_down(s);
    let u = v.spec_b_tokens_to_underlying_down(b);
    let amount = u + 1;
    if fits_i128(amount * k) {
        lemma_mul_div_bounds(s, total_b, total_shares);
        lemma_mul_div_bounds(b, r, k);
        let b2 = v.spec_underlying_to_b_tokens_up(amount);
        lemma_mul_div_bounds(amount, k, r);
        assert(b2 >= b + 1) by (nonlinear_arith)
            requires
                b2 * r - r < amount * k <= b2 * r,
                b * r < u * k + k,
                amount == u + 1,
                r > 0,
                k > 0,
        ;
        if v.b_tokens_to_shares_fits(b2 as int) {
            let sh = v.spec_b_tokens_to_shares_up(b2);
            lemma_mul_div_bounds(b2, total_shares, total_b);
            assert(sh > s) by (nonlinear_arith)
                requires
                    b2 * total_shares <= sh * total_b,
                    b2 >= b + 1,
                    s * total_b < b * total_shares + total_shares,
                    total_shares > 0,
                    total_b > 0,
            ;
        }
    }
}

/// Claiming fees hands the admin exactly the accrued fees and zeroes them,
/// and fails with `InsufficientAccruedFees` when nothing has accrued.
pub proof fn lemma_claim_takes_exactly_accrued(v: ReserveVault)
    ensures
        v.accrued_fees <= 0 ==> claim_from(v) == Err::<(ReserveVault, i128, i128), FeeVaultError>(
            FeeVaultError::InsufficientAccruedFees,
        ),
        claim_from(v) matches Ok((next, claimed, _)) ==> claimed == v.accrued_fees && next.accrued_fees == 0
            && next.total_b_tokens == v.total_b_tokens && next.total_shares == v.total_shares,
{
}

/// A claim of more than the accrued fees fails with `InsufficientAccruedFees`
/// and changes nothing; a claim of exactly the accrued fees zeroes them.
pub proof fn lemma_claim_amount_bounded_by_accrued(v: ReserveVault, amount: i128)
    requires
        v.wf(),
    ensures
        amount > v.accrued_fees ==> claim_amount_from(v, amount) == Err::<
            (ReserveVault, i128, i128),
            FeeVaultError,
        >(FeeVaultError::InsufficientAccruedFees),
        amount == v.accrued_fees ==> (claim_amount_from(v, amount) matches Ok((next, claimed, _))
            ==> claimed == amount && next.accrued_fees == 0),
{
}

} // verus!
