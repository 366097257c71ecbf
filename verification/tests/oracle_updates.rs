use dex::errors::PairError;
use dex::oracle::update_reserves;
use dex::state::Pair;

fn active_pair() -> Pair {
    Pair {
        factory: 1,
        token_0: 10,
        token_1: 11,
        reserve_0: 1000,
        reserve_1: 2000,
        block_timestamp_last: 100,
        price_0_cumulative_last: 0,
        price_1_cumulative_last: 0,
        k_last: 0,
        bump: 254,
        lp_bump: 253,
    }
}

#[test]
fn update_stores_balances_and_timestamp() {
    let mut pair = active_pair();
    assert_eq!(update_reserves(&mut pair, 1500, 3000, 110), Ok(()));
    assert_eq!(pair.reserve_0, 1500);
    assert_eq!(pair.reserve_1, 3000);
    assert_eq!(pair.block_timestamp_last, 110);
}

#[test]
fn update_accumulates_time_weighted_price() {
    let mut pair = active_pair();
    assert_eq!(update_reserves(&mut pair, 1500, 3000, 110), Ok(()));
    // elapsed = 10: price_0 += 2000 * 10 / 1000, price_1 += 1000 * 10 / 2000.
    assert_eq!(pair.price_0_cumulative_last, 20);
    assert_eq!(pair.price_1_cumulative_last, 5);
}

#[test]
fn accumulators_monotone_over_a_sequence() {
    let mut pair = active_pair();
    let mut last_0 = pair.price_0_cumulative_last;
    let mut last_1 = pair.price_1_cumulative_last;
    let steps: [(u64, u64, u64); 4] = [(1500, 3000, 110), (1500, 3000, 110), (900, 2000, 125), (901, 2001, 200)];
    for (balance_0, balance_1, now) in steps {
        assert_eq!(update_reserves(&mut pair, balance_0, balance_1, now), Ok(()));
        assert!(pair.price_0_cumulative_last >= last_0);
        assert!(pair.price_1_cumulative_last >= last_1);
        last_0 = pair.price_0_cumulative_last;
        last_1 = pair.price_1_cumulative_last;
    }
}

#[test]
fn no_sample_when_no_time_passed() {
    let mut pair = active_pair();
    assert_eq!(update_reserves(&mut pair, 1500, 3000, 100), Ok(()));
    assert_eq!(pair.price_0_cumulative_last, 0);
    assert_eq!(pair.price_1_cumulative_last, 0);
    assert_eq!(pair.reserve_0, 1500);
}

#[test]
fn no_sample_when_a_reserve_is_zero() {
    let mut pair = active_pair();
    pair.reserve_0 = 0;
    assert_eq!(update_reserves(&mut pair, 1500, 3000, 110), Ok(()));
    assert_eq!(pair.price_0_cumulative_last, 0);
    assert_eq!(pair.price_1_cumulative_last, 0);
}

#[test]
fn elapsed_saturates_on_a_clock_running_backwards() {
    let mut pair = active_pair();
    assert_eq!(update_reserves(&mut pair, 1500, 3000, 90), Ok(()));
    assert_eq!(pair.price_0_cumulative_last, 0);
    assert_eq!(pair.block_timestamp_last, 90);
}

#[test]
fn update_fails_whole_when_a_sample_overflows() {
    let mut pair = active_pair();
    pair.reserve_0 = 1;
    pair.reserve_1 = u64::MAX;
    pair.block_timestamp_last = 0;
    let before = pair;
    // reserve_1 * elapsed / reserve_0 leaves the 64-bit range.
    assert_eq!(update_reserves(&mut pair, 10, 10, 100), Err(PairError::Overflow));
    assert_eq!(pair, before);
}
