use dex::errors::PairError;
use dex::liquidity::{compute_liquidity, mint_bootstrap, mint_steady, MINIMUM_LIQUIDITY};

#[test]
fn bootstrap_example() {
    // sqrt(10000 * 10000) = 10000, minus the locked minimum of 1000.
    assert_eq!(mint_bootstrap(10_000, 10_000), Ok(9_000));
}

#[test]
fn bootstrap_at_the_locked_floor() {
    // sqrt(1000 * 1000) = 1000 exactly: nothing is left for the
    // depositor, but the deposit is not rejected.
    assert_eq!(mint_bootstrap(1_000, 1_000), Ok(0));
}

#[test]
fn bootstrap_below_the_locked_floor() {
    // sqrt(999 * 1000) = 999 < 1000.
    assert_eq!(mint_bootstrap(999, 1_000), Err(PairError::InsufficientLiquidityMinted));
    assert_eq!(mint_bootstrap(0, 1_000), Err(PairError::InsufficientLiquidityMinted));
}

#[test]
fn minimum_liquidity_is_locked_at_1000() {
    assert_eq!(MINIMUM_LIQUIDITY, 1000);
}

#[test]
fn steady_state_takes_the_smaller_ratio() {
    // L0 = 1000 * 10000 / 10000 = 1000, L1 = 1000 * 10000 / 20000 = 500.
    assert_eq!(mint_steady(1_000, 1_000, 10_000, 20_000, 10_000), Ok(500));
}

#[test]
fn steady_state_rejects_zero_mint() {
    // Both ratios floor to zero.
    assert_eq!(mint_steady(1, 1, 10_000, 20_000, 100), Err(PairError::InsufficientLiquidityMinted));
}

#[test]
fn steady_state_overflows_on_zero_reserve() {
    assert_eq!(mint_steady(1_000, 1_000, 0, 20_000, 10_000), Err(PairError::Overflow));
    assert_eq!(mint_steady(1_000, 1_000, 10_000, 0, 10_000), Err(PairError::Overflow));
}

#[test]
fn steady_state_overflows_on_wide_ratio() {
    assert_eq!(mint_steady(u64::MAX, 1, 1, 1, u64::MAX), Err(PairError::Overflow));
}

#[test]
fn compute_liquidity_selects_the_regime() {
    assert_eq!(compute_liquidity(10_000, 10_000, 0, 0, 0), Ok(9_000));
    assert_eq!(compute_liquidity(1_000, 1_000, 10_000, 20_000, 10_000), Ok(500));
    // One reserve still zero is not the bootstrap regime.
    assert_eq!(compute_liquidity(1_000, 1_000, 0, 20_000, 10_000), Err(PairError::Overflow));
}
