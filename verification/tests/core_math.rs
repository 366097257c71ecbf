use dex::errors::PairError;
use dex::math::{integer_sqrt, mul_div};
use dex::quote::quote;

fn sqrt_round_trip(n: u128) {
    let r = integer_sqrt(n);
    assert!(r.checked_mul(r).expect("root squared fits") <= n);
    match (r + 1).checked_mul(r + 1) {
        Some(next) => assert!(n < next),
        // (r + 1)^2 left the 128-bit range, so it certainly exceeds n.
        None => {}
    }
}

#[test]
fn integer_sqrt_round_trip_small() {
    for n in 0u128..200 {
        sqrt_round_trip(n);
    }
}

#[test]
fn integer_sqrt_round_trip_large() {
    sqrt_round_trip(999_999u128);
    sqrt_round_trip(1_000_000u128);
    sqrt_round_trip(100_000_000u128);
    sqrt_round_trip(u64::MAX as u128);
    sqrt_round_trip((u64::MAX as u128) * (u64::MAX as u128));
    sqrt_round_trip(u128::MAX);
}

#[test]
fn integer_sqrt_exact_values() {
    assert_eq!(integer_sqrt(0), 0);
    assert_eq!(integer_sqrt(1), 1);
    assert_eq!(integer_sqrt(3), 1);
    assert_eq!(integer_sqrt(4), 2);
    assert_eq!(integer_sqrt(99), 9);
    assert_eq!(integer_sqrt(100_000_000), 10_000);
}

#[test]
fn mul_div_rounds_down() {
    assert_eq!(mul_div(6, 2, 3), Ok(4));
    assert_eq!(mul_div(7, 2, 3), Ok(4));
    assert_eq!(mul_div(0, 5, 3), Ok(0));
}

#[test]
fn mul_div_overflow_boundary() {
    assert_eq!(mul_div(u64::MAX, u64::MAX, 1), Err(PairError::Overflow));
    assert_eq!(mul_div(u64::MAX, u64::MAX, u64::MAX), Ok(u64::MAX));
    assert_eq!(mul_div(u64::MAX, 2, 2), Ok(u64::MAX));
}

#[test]
fn mul_div_zero_divisor() {
    assert_eq!(mul_div(1, 1, 0), Err(PairError::Overflow));
}

#[test]
fn quote_matches_floor_formula() {
    assert_eq!(quote(500, 1000, 2000), Ok(1000));
    assert_eq!(quote(3, 2, 3), Ok(4));
    assert_eq!(quote(1, 3, 1), Ok(0));
}

#[test]
fn quote_rejects_zero_amount() {
    assert_eq!(quote(0, 1000, 2000), Err(PairError::InsufficientAmount));
}

#[test]
fn quote_rejects_zero_reserves() {
    assert_eq!(quote(5, 0, 2000), Err(PairError::InsufficientLiquidity));
    assert_eq!(quote(5, 1000, 0), Err(PairError::InsufficientLiquidity));
    assert_eq!(quote(5, 0, 0), Err(PairError::InsufficientLiquidity));
}

#[test]
fn quote_overflows_on_narrowing() {
    assert_eq!(quote(u64::MAX, 1, u64::MAX), Err(PairError::Overflow));
}

#[test]
fn quote_monotonic_samples() {
    let mut last = 0u64;
    for a in 1u64..100 {
        let q = quote(a, 7, 13).expect("small quote succeeds");
        assert!(q >= last);
        last = q;
    }
}

#[test]
fn quote_preserves_ratio_at_exact_multiple() {
    let (reserve_0, reserve_1) = (1000u64, 2000u64);
    let amount_0 = 500u64;
    let amount_1 = quote(amount_0, reserve_0, reserve_1).expect("quote succeeds");
    let new_0 = reserve_0 + amount_0;
    let new_1 = reserve_1 + amount_1;
    // The ratio is preserved exactly: cross products agree.
    assert_eq!((new_0 as u128) * (reserve_1 as u128), (new_1 as u128) * (reserve_0 as u128));
}

#[test]
fn quote_ratio_deficit_below_one_unit() {
    let (reserve_0, reserve_1) = (7u64, 13u64);
    let amount_0 = 5u64;
    let amount_1 = quote(amount_0, reserve_0, reserve_1).expect("quote succeeds");
    // floor(5 * 13 / 7) = 9, and the cross-product deficit stays below
    // reserve_0.
    assert_eq!(amount_1, 9);
    let deficit = (amount_0 as u128) * (reserve_1 as u128) - (amount_1 as u128) * (reserve_0 as u128);
    assert!(deficit < reserve_0 as u128);
}
