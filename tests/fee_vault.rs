use fee_vault::constants::SCALAR_12;
use fee_vault::contract::FeeVault;
use fee_vault::errors::FeeVaultError;
use fee_vault::reserve_vault::{self, ReserveVault};
use fee_vault::storage::FeeMode;
use fee_vault::validator::require_positive;

const DEFAULT_TIME: u64 = 1441065600;
const RATE_STEP: u64 = 25;

fn vault(b_rate: i128, total_b_tokens: i128, total_shares: i128, accrued_fees: i128, now: u64) -> ReserveVault {
    ReserveVault { b_rate, last_update_timestamp: now, total_shares, total_b_tokens, accrued_fees }
}

fn assert_approx_eq_rel(a: i128, b: i128, percentage: i128) {
    let rel_delta = b * percentage / 1_0000000;
    assert!(a > b - rel_delta && a < b + rel_delta, "{} not within {} of {}", a, rel_delta, b);
}

#[test]
fn test_constructor_ok() {
    let take_rate = 1_000_0000;
    let is_apr_capped = false;
    let fee_vault = FeeVault::new(is_apr_capped, take_rate).unwrap();
    assert_eq!(fee_vault.fee_mode.is_apr_capped, is_apr_capped);
    assert_eq!(fee_vault.fee_mode.value, take_rate);
}

#[test]
fn test_constructor_negative_take_rate() {
    assert_eq!(FeeVault::new(false, -1), Err(FeeVaultError::InvalidFeeModeValue));
}

#[test]
fn test_constructor_negative_apr_cap() {
    assert_eq!(FeeVault::new(true, -1999), Err(FeeVaultError::InvalidFeeModeValue));
}

#[test]
fn test_constructor_take_rate_over_max() {
    assert_eq!(FeeVault::new(false, 1_000_0001), Err(FeeVaultError::InvalidFeeModeValue));
}

#[test]
fn test_constructor_apr_cap_over_max() {
    assert_eq!(
        FeeVault::new(true, 170_141_183_460_469_231_731_687_303_715_884_105_727i128),
        Err(FeeVaultError::InvalidFeeModeValue)
    );
}

#[test]
fn test_get_b_tokens() {
    let fee_vault = FeeVault::new(false, 0_1000000).unwrap();
    let init_b_rate = 1_000_000_000_000;
    let now = DEFAULT_TIME;
    let reserve_vault = vault(init_b_rate, 1000_0000000, 1200_0000000, 0, now);

    // samwise owns 10% of the pool, frodo owns 90%
    let samwise = 120_0000000;
    let frodo = 1080_0000000;
    assert_eq!(fee_vault.get_b_tokens(&reserve_vault, samwise, now, init_b_rate), Ok(100_0000000));
    assert_eq!(fee_vault.get_b_tokens(&reserve_vault, frodo, now, init_b_rate), Ok(900_0000000));

    // b_rate is increased by 10%. `take_rate` is 10%
    let later = now + RATE_STEP;
    let new_b_rate = 1_100_000_000_000;
    let expected_accrued_fees = 90909090_i128;
    let expected_total_b_tokens = 1000_0000000 - expected_accrued_fees;

    // get_b_tokens always returns updated results, even though the stored b_rate is stale
    assert_eq!(
        fee_vault.get_b_tokens(&reserve_vault, samwise, later, new_b_rate),
        Ok(expected_total_b_tokens * 10 / 100)
    );
    assert_eq!(
        fee_vault.get_b_tokens(&reserve_vault, frodo, later, new_b_rate),
        Ok(expected_total_b_tokens * 90 / 100)
    );

    // The view doesn't mutate the record
    assert_eq!(reserve_vault.accrued_fees, 0);
    assert_eq!(reserve_vault.total_b_tokens, 1000_0000000);
    assert_eq!(reserve_vault.total_shares, 1200_0000000);
    assert_eq!(reserve_vault.b_rate, 1_000_000_000_000);

    // A user without shares has no b-tokens
    assert_eq!(fee_vault.get_b_tokens(&reserve_vault, 0, later, new_b_rate), Ok(0));
}

#[test]
fn test_underlying_wrappers() {
    let fee_vault = FeeVault::new(false, 0_1000000).unwrap();
    let init_b_rate = 1_000_000_000_000;
    let now = DEFAULT_TIME;
    let reserve_vault = vault(init_b_rate, 1000_0000000, 1200_0000000, 0, now);
    // samwise owns 10% of the pool, frodo owns 90%
    let samwise = 120_0000000;
    let frodo = 1080_0000000;

    let total_underlying_value = init_b_rate * 1000_0000000 / SCALAR_12;
    let frodo_underlying = fee_vault.get_underlying_tokens(&reserve_vault, frodo, now, init_b_rate).unwrap();
    let samwise_underlying = fee_vault.get_underlying_tokens(&reserve_vault, samwise, now, init_b_rate).unwrap();

    assert_eq!(frodo_underlying + samwise_underlying, total_underlying_value);
    assert_eq!(frodo_underlying, 9 * samwise_underlying);

    // There are no accrued fees initially
    assert_eq!(fee_vault.get_collected_fees(Some(reserve_vault), now, init_b_rate), Ok(0));

    // b_rate is increased by 10%. The wrappers should take that into account
    let later = now + RATE_STEP;
    let new_b_rate = 1_100_000_000_000;

    // Since the growth is 10%, and the take_rate is also 10%,
    // the total accrued fees value should be `initial underlying / 100`.
    let accrued_fees_underlying = fee_vault.get_collected_fees(Some(reserve_vault), later, new_b_rate).unwrap();
    assert_approx_eq_rel(accrued_fees_underlying, total_underlying_value / 100, 0_0000001);

    let sam_underlying_after = fee_vault.get_underlying_tokens(&reserve_vault, samwise, later, new_b_rate).unwrap();
    let frodo_underlying_after = fee_vault.get_underlying_tokens(&reserve_vault, frodo, later, new_b_rate).unwrap();

    // The new total underlying sum should be increased by 10%
    assert_approx_eq_rel(
        frodo_underlying_after + sam_underlying_after + accrued_fees_underlying,
        110 * total_underlying_value / 100,
        0_0000001,
    );

    // Both Frodo's and Sam's underlying value should've been increased by 9%
    assert_eq!(frodo_underlying_after, 109 * frodo_underlying / 100);
    assert_eq!(sam_underlying_after, 109 * samwise_underlying / 100);
    assert_eq!(frodo_underlying_after, 9 * sam_underlying_after);

    // No shares or no vault: nothing
    assert_eq!(fee_vault.get_underlying_tokens(&reserve_vault, 0, later, new_b_rate), Ok(0));
    assert_eq!(fee_vault.get_collected_fees(None, later, new_b_rate), Ok(0));
}

#[test]
fn test_set_fee_mode() {
    let mut fee_vault = FeeVault::new(false, 0_1000000).unwrap();
    let mut vaults: Vec<ReserveVault> = Vec::new();
    let rates: Vec<i128> = Vec::new();

    // value should be in range 0..1_000_0000
    assert_eq!(
        fee_vault.set_fee_mode(false, -1, &mut vaults, DEFAULT_TIME, &rates),
        Err(FeeVaultError::InvalidFeeModeValue)
    );
    assert_eq!(
        fee_vault.set_fee_mode(true, -2, &mut vaults, DEFAULT_TIME, &rates),
        Err(FeeVaultError::InvalidFeeModeValue)
    );
    assert_eq!(
        fee_vault.set_fee_mode(true, 1_000_0001, &mut vaults, DEFAULT_TIME, &rates),
        Err(FeeVaultError::InvalidFeeModeValue)
    );
    assert_eq!(FeeVaultError::InvalidFeeModeValue.code(), 104);
    assert_eq!(fee_vault.fee_mode, FeeMode { is_apr_capped: false, value: 0_1000000 });

    // Set take rate to 0.5
    fee_vault.set_fee_mode(false, 500_000, &mut vaults, DEFAULT_TIME, &rates).unwrap();
    assert_eq!(fee_vault.fee_mode.is_apr_capped, false);
    assert_eq!(fee_vault.fee_mode.value, 500_000);

    // Setting the value to 0 or 100% should be possible
    fee_vault.set_fee_mode(true, 0, &mut vaults, DEFAULT_TIME, &rates).unwrap();
    assert_eq!(fee_vault.fee_mode.is_apr_capped, true);
    assert_eq!(fee_vault.fee_mode.value, 0);

    fee_vault.set_fee_mode(false, 1_000_0000, &mut vaults, DEFAULT_TIME, &rates).unwrap();
    assert_eq!(fee_vault.fee_mode.is_apr_capped, false);
    assert_eq!(fee_vault.fee_mode.value, 1_000_0000);
}

#[test]
fn test_ensure_b_rate_gets_update_pre_fee_mode_update() {
    let mut fee_vault = FeeVault::new(false, 0_1000000).unwrap();
    let init_b_rate = 1_000_000_000_000;
    let now = DEFAULT_TIME;

    // Add 2 reserves
    let usdc = fee_vault.add_reserve_vault(false, init_b_rate, now).unwrap();
    let xlm = fee_vault.add_reserve_vault(false, init_b_rate, now).unwrap();
    assert_eq!(usdc, vault(init_b_rate, 0, 0, 0, now));
    assert_eq!(xlm, vault(init_b_rate, 0, 0, 0, now));

    // Set the totals by hand to stand for earlier deposits
    let mut vaults = vec![
        vault(init_b_rate, 1000_0000000, 1200_0000000, 0, now),
        vault(init_b_rate, 100_0000000, 100_0000000, 0, now),
    ];
    // All the shares are owned by samwise for simplicity
    let usdc_shares = 1200_0000000;
    let xlm_shares = 100_0000000;

    let usdc_underlying_balance_before =
        fee_vault.get_underlying_tokens(&vaults[0], usdc_shares, now, init_b_rate).unwrap();
    let xlm_underlying_balance_before =
        fee_vault.get_underlying_tokens(&vaults[1], xlm_shares, now, init_b_rate).unwrap();

    // The pool has doubled in value, but interest hasn't been accrued yet
    let later = now + RATE_STEP;
    let new_b_rate = 2_000_000_000_000;
    assert_eq!(vaults[0].accrued_fees, 0);
    assert_eq!(vaults[0].b_rate, 1_000_000_000_000);
    assert_ne!(vaults[0].last_update_timestamp, later);
    assert_eq!(vaults[1].accrued_fees, 0);
    assert_eq!(vaults[1].b_rate, 1_000_000_000_000);
    assert_ne!(vaults[1].last_update_timestamp, later);

    // Admin tries to take advantage of that by setting the take_rate to 100% to claim all the fees.
    let rates = vec![new_b_rate, new_b_rate];
    fee_vault.set_fee_mode(false, 1_000_0000, &mut vaults, later, &rates).unwrap();

    // The previous action shouldn't affect any already accrued rewards
    let usdc_underlying_balance_after =
        fee_vault.get_underlying_tokens(&vaults[0], usdc_shares, later, new_b_rate).unwrap();
    let xlm_underlying_balance_after =
        fee_vault.get_underlying_tokens(&vaults[1], xlm_shares, later, new_b_rate).unwrap();

    // The b_rate has doubled and the take_rate was 10%. So we expect 190% increase
    assert_eq!(usdc_underlying_balance_after, usdc_underlying_balance_before * 19 / 10);
    assert_eq!(xlm_underlying_balance_after, xlm_underlying_balance_before * 19 / 10);

    // The stored reserve vaults are also up to date
    assert_eq!(vaults[0].accrued_fees, 500000000);
    assert_eq!(vaults[0].b_rate, new_b_rate);
    assert_eq!(vaults[0].last_update_timestamp, later);
    assert_eq!(vaults[0].total_b_tokens, 1000_0000000 - 500000000);
    assert_eq!(vaults[1].accrued_fees, 50000000);
    assert_eq!(vaults[1].b_rate, new_b_rate);
    assert_eq!(vaults[1].last_update_timestamp, later);
}

#[test]
fn test_add_reserve_vault() {
    let fee_vault = FeeVault::new(false, 0_1000000).unwrap();

    let reserve_info = fee_vault.add_reserve_vault(false, 1_100_000_000_000, DEFAULT_TIME).unwrap();
    assert_eq!(reserve_info.total_b_tokens, 0);
    assert_eq!(reserve_info.total_shares, 0);
    // The init b_rate of the pool at the time of registering the vault was 1.1
    assert_eq!(reserve_info.b_rate, 1_100_000_000_000);
    assert_eq!(reserve_info.accrued_fees, 0);
    assert_eq!(reserve_info.last_update_timestamp, DEFAULT_TIME);

    // Trying to add a vault for the same reserve should fail
    assert_eq!(
        fee_vault.add_reserve_vault(true, 1_100_000_000_000, DEFAULT_TIME),
        Err(FeeVaultError::ReserveAlreadyExists)
    );
    assert_eq!(FeeVaultError::ReserveAlreadyExists.code(), 101);
}

#[test]
fn entry_points_reject_non_positive_amounts() {
    let fee_vault = FeeVault::new(false, 0_1000000).unwrap();
    let mut reserve_vault = vault(1_100_000_000_000, 1000_0000000, 1200_0000000, 0, DEFAULT_TIME);
    let mut shares: i128 = 100_0000000;
    assert_eq!(
        fee_vault.deposit(&mut reserve_vault, &mut shares, 0, DEFAULT_TIME, 1_100_000_000_000),
        Err(FeeVaultError::InvalidAmount)
    );
    assert_eq!(
        fee_vault.withdraw(&mut reserve_vault, &mut shares, -1, DEFAULT_TIME, 1_100_000_000_000),
        Err(FeeVaultError::InvalidAmount)
    );
    assert_eq!(FeeVaultError::InvalidAmount.code(), 102);
    assert_eq!(shares, 100_0000000);
}

#[test]
fn deposit_then_withdraw_everything_round_trip() {
    let fee_vault = FeeVault::new(false, 0_1000000).unwrap();
    let b_rate = 1_000_000_000_000;
    let mut reserve_vault = fee_vault.add_reserve_vault(false, b_rate, DEFAULT_TIME).unwrap();
    let mut shares: i128 = 0;

    // first deposit is minted 1:1
    let (b_tokens, minted) =
        fee_vault.deposit(&mut reserve_vault, &mut shares, 100_0000000, DEFAULT_TIME, b_rate).unwrap();
    assert_eq!(b_tokens, 100_0000000);
    assert_eq!(minted, b_tokens);

    let underlying = fee_vault.get_underlying_tokens(&reserve_vault, shares, DEFAULT_TIME, b_rate).unwrap();
    assert_eq!(underlying, 100_0000000);
    let (b_tokens_burnt, burnt) =
        fee_vault.withdraw(&mut reserve_vault, &mut shares, underlying, DEFAULT_TIME, b_rate).unwrap();
    assert_eq!(b_tokens_burnt, 100_0000000);
    assert_eq!(burnt, 100_0000000);
    assert_eq!(shares, 0);
    assert_eq!(reserve_vault.total_shares, 0);
    assert_eq!(reserve_vault.total_b_tokens, 0);
}

#[test]
fn holdings_track_b_tokens_moved_through_the_pool() {
    let mode = FeeMode { is_apr_capped: false, value: 0_2000000 };
    let mut reserve_vault = vault(1_000_000_000_000, 0, 0, 0, DEFAULT_TIME);
    let mut frodo: i128 = 0;
    let mut sam: i128 = 0;
    let mut supplied: i128 = 0;

    let (b, _) = reserve_vault::deposit(&mut reserve_vault, &mut frodo, 500_0000000, DEFAULT_TIME + 10, 1_050_000_000_000, &mode)
        .unwrap();
    supplied += b;
    let (b, _) = reserve_vault::deposit(&mut reserve_vault, &mut sam, 300_0000000, DEFAULT_TIME + 20, 1_100_000_000_000, &mode)
        .unwrap();
    supplied += b;
    assert!(reserve_vault.accrued_fees > 0);
    let (b, _) = reserve_vault::withdraw(&mut reserve_vault, &mut frodo, 100_0000000, DEFAULT_TIME + 30, 1_200_000_000_000, &mode)
        .unwrap();
    supplied -= b;
    let (b, _) = reserve_vault::claim_fees(&mut reserve_vault, DEFAULT_TIME + 40, 1_250_000_000_000, &mode).unwrap();
    supplied -= b;
    assert_eq!(reserve_vault.accrued_fees, 0);
    assert_eq!(reserve_vault.total_b_tokens + reserve_vault.accrued_fees, supplied);
    assert_eq!(reserve_vault.total_shares, frodo + sam);
}

#[test]
fn flat_rate_accrues_no_fee() {
    let mode = FeeMode { is_apr_capped: false, value: 1_000_0000 };
    let mut reserve_vault = vault(1_100_000_000_000, 1000_0000000, 1200_0000000, 3_0000000, DEFAULT_TIME);
    reserve_vault.update_rate(DEFAULT_TIME + 1000, 1_100_000_000_000, &mode).unwrap();
    assert_eq!(reserve_vault.accrued_fees, 3_0000000);
    assert_eq!(reserve_vault.total_b_tokens, 1000_0000000);
    assert_eq!(reserve_vault.last_update_timestamp, DEFAULT_TIME + 1000);
}

#[test]
fn falling_rate_accrues_no_fee() {
    let mode = FeeMode { is_apr_capped: false, value: 0_5000000 };
    let mut reserve_vault = vault(1_100_000_000_000, 1000_0000000, 1200_0000000, 0, DEFAULT_TIME);
    reserve_vault.update_rate(DEFAULT_TIME + 1000, 1_000_000_000_000, &mode).unwrap();
    assert_eq!(reserve_vault.accrued_fees, 0);
    assert_eq!(reserve_vault.total_b_tokens, 1000_0000000);
    assert_eq!(reserve_vault.b_rate, 1_000_000_000_000);
}

#[test]
fn claim_of_everything_zeroes_the_fees() {
    let fee_vault = FeeVault::new(false, 0_1000000).unwrap();
    let mut reserve_vault = vault(1_100_000_000_000, 1000_0000000, 1200_0000000, 7_0000000, DEFAULT_TIME);
    let (b_tokens, underlying) = fee_vault.claim_fees(&mut reserve_vault, DEFAULT_TIME, 1_100_000_000_000).unwrap();
    assert_eq!(b_tokens, 7_0000000);
    assert_eq!(underlying, 7_7000000);
    assert_eq!(reserve_vault.accrued_fees, 0);
    // a second claim has nothing left to take
    assert_eq!(
        fee_vault.claim_fees(&mut reserve_vault, DEFAULT_TIME, 1_100_000_000_000),
        Err(FeeVaultError::InsufficientAccruedFees)
    );
}

#[test]
fn overflowing_deposit_is_an_arithmetic_error() {
    let fee_vault = FeeVault::new(false, 0_1000000).unwrap();
    let mut reserve_vault = vault(1_100_000_000_000, 1000_0000000, 1200_0000000, 0, DEFAULT_TIME);
    let mut shares: i128 = 0;
    assert_eq!(
        fee_vault.deposit(&mut reserve_vault, &mut shares, i128::MAX / 2, DEFAULT_TIME, 1_100_000_000_000),
        Err(FeeVaultError::ArithmeticError)
    );
    assert_eq!(FeeVaultError::ArithmeticError.code(), 109);
    assert_eq!(FeeVaultError::ReserveNotFound.code(), 100);
}

#[test]
fn claiming_more_than_accrued_fails() {
    let mode = FeeMode { is_apr_capped: false, value: 0_1000000 };
    let mut reserve_vault = vault(1_100_000_000_000, 1000_0000000, 1200_0000000, 5_0000000, DEFAULT_TIME);
    let before = reserve_vault;
    assert_eq!(
        reserve_vault::claim_fees_amount(&mut reserve_vault, 5_0000001, DEFAULT_TIME, 1_100_000_000_000, &mode),
        Err(FeeVaultError::InsufficientAccruedFees)
    );
    assert_eq!(reserve_vault, before);
    assert_eq!(
        reserve_vault::claim_fees_amount(&mut reserve_vault, 0, DEFAULT_TIME, 1_100_000_000_000, &mode),
        Err(FeeVaultError::InvalidAmount)
    );

    // part of the fees, then exactly the rest
    assert_eq!(
        reserve_vault::claim_fees_amount(&mut reserve_vault, 2_0000000, DEFAULT_TIME, 1_100_000_000_000, &mode),
        Ok((2_0000000, 2_2000000))
    );
    assert_eq!(reserve_vault.accrued_fees, 3_0000000);
    assert_eq!(
        reserve_vault::claim_fees_amount(&mut reserve_vault, 3_0000000, DEFAULT_TIME, 1_100_000_000_000, &mode),
        Ok((3_0000000, 3_3000000))
    );
    assert_eq!(reserve_vault.accrued_fees, 0);
    assert_eq!(reserve_vault.total_b_tokens, 1000_0000000);
}

#[test]
fn require_positive_rejects_zero_and_negative() {
    assert_eq!(require_positive(1, FeeVaultError::InvalidAmount), Ok(()));
    assert_eq!(require_positive(0, FeeVaultError::InvalidAmount), Err(FeeVaultError::InvalidAmount));
    assert_eq!(require_positive(-5, FeeVaultError::InvalidSharesMinted), Err(FeeVaultError::InvalidSharesMinted));
}

#[test]
fn apr_cap_target_growth_rounds_up() {
    // a 0.0000001 cap over one second: the target rate is rounded up to the new rate
    let mode = FeeMode { is_apr_capped: true, value: 1 };
    let mut reserve_vault = vault(1_000_000_000_000, 10_000_000_000_000, 10_000_000_000_000, 0, DEFAULT_TIME);
    reserve_vault.update_rate(DEFAULT_TIME + 1, 1_000_000_000_001, &mode).unwrap();
    assert_eq!(reserve_vault.accrued_fees, 0);
    assert_eq!(reserve_vault.total_b_tokens, 10_000_000_000_000);
    assert_eq!(reserve_vault.b_rate, 1_000_000_000_001);
}

#[test]
fn full_withdrawal_burns_dust_shares() {
    let mode = FeeMode { is_apr_capped: false, value: 0_1000000 };
    let mut reserve_vault = vault(1_000_000_000_000, 3, 5, 0, DEFAULT_TIME);
    let mut shares: i128 = 3;
    let b_tokens = reserve_vault.shares_to_b_tokens_down(shares);
    let underlying = reserve_vault.b_tokens_to_underlying_down(b_tokens);
    assert_eq!(underlying, 1);
    let result =
        reserve_vault::withdraw(&mut reserve_vault, &mut shares, underlying, DEFAULT_TIME, 1_000_000_000_000, &mode);
    // 2 shares pay for the b-token; the third would be worth nothing and goes with them
    assert_eq!(result, Ok((1, 3)));
    assert_eq!(shares, 0);
    assert_eq!(reserve_vault.total_shares, 2);
    assert_eq!(reserve_vault.total_b_tokens, 2);
}

#[test]
fn non_positive_pool_rate_is_an_arithmetic_error() {
    let mode = FeeMode { is_apr_capped: false, value: 0_1000000 };
    let mut reserve_vault = vault(1_000_000_000_000, 3, 5, 0, DEFAULT_TIME);
    let before = reserve_vault;
    assert_eq!(reserve_vault.update_rate(DEFAULT_TIME + 5, 0, &mode), Err(FeeVaultError::ArithmeticError));
    assert_eq!(reserve_vault, before);
    // no time has passed: nothing to update, the rate is not used
    assert_eq!(reserve_vault.update_rate(DEFAULT_TIME, -1, &mode), Ok(()));
    let fee_vault = FeeVault::new(false, 0_1000000).unwrap();
    assert_eq!(fee_vault.add_reserve_vault(false, 0, DEFAULT_TIME), Err(FeeVaultError::ArithmeticError));
}
