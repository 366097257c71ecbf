//! The reserve oracle: after every custody-affecting operation it stores
//! the authoritative post-transfer balances and integrates the
//! time-weighted relative price over the elapsed time, so that observers
//! can average the price over any window by differencing two snapshots.

use vstd::prelude::*;
use crate::errors::PairError;
use crate::math::{mul_div, mul_div_ok, wide_quotient};
use crate::state::Pair;

verus! {

/// Seconds elapsed since the last update, saturating at zero.
pub open spec fn elapsed_spec(last: u64, now: u64) -> u64 {
    if now > last {
        (now - last) as u64
    } else {
        0
    }
}

/// Whether an update at `now` takes a price sample: time has passed and
/// both prior reserves exist. Otherwise accumulation is skipped, not
/// zero-filled, to avoid division by zero and spurious samples.
pub open spec fn takes_sample(pair: Pair, now: u64) -> bool {
    elapsed_spec(pair.block_timestamp_last, now) > 0 && pair.reserve_0 > 0 && pair.reserve_1 > 0
}

/// The sample added to the asset-0 price accumulator:
/// reserve_1 * elapsed / reserve_0.
pub open spec fn price_0_sample(pair: Pair, now: u64) -> int {
    wide_quotient(pair.reserve_1, elapsed_spec(pair.block_timestamp_last, now), pair.reserve_0)
}

/// The sample added to the asset-1 price accumulator:
/// reserve_0 * elapsed / reserve_1.
pub open spec fn price_1_sample(pair: Pair, now: u64) -> int {
    wide_quotient(pair.reserve_0, elapsed_spec(pair.block_timestamp_last, now), pair.reserve_1)
}

/// Whether an update succeeds: when a sample is taken, both samples and
/// both grown accumulators stay within the 64-bit range.
pub open spec fn update_ok(pair: Pair, now: u64) -> bool {
    takes_sample(pair, now) ==> {
        &&& price_0_sample(pair, now) <= u64::MAX
        &&& pair.price_0_cumulative_last + price_0_sample(pair, now) <= u64::MAX
        &&& price_1_sample(pair, now) <= u64::MAX
        &&& pair.price_1_cumulative_last + price_1_sample(pair, now) <= u64::MAX
    }
}

/// The pair after a successful update: reserves and timestamp overwritten
/// with the caller's authoritative values, accumulators grown by one
/// sample when one is taken, everything else untouched.
pub open spec fn updated_pair(pair: Pair, balance_0: u64, balance_1: u64, now: u64) -> Pair {
    Pair {
        reserve_0: balance_0,
        reserve_1: balance_1,
        block_timestamp_last: now,
        price_0_cumulative_last: if takes_sample(pair, now) {
            (pair.price_0_cumulative_last + price_0_sample(pair, now)) as u64
        } else {
            pair.price_0_cumulative_last
        },
        price_1_cumulative_last: if takes_sample(pair, now) {
            (pair.price_1_cumulative_last + price_1_sample(pair, now)) as u64
        } else {
            pair.price_1_cumulative_last
        },
        ..pair
    }
}

/// Stores the authoritative post-transfer balances and integrates the
/// price accumulators over the elapsed time.
///
/// On any failure the pair is left exactly as it was. On success the
/// accumulators never decrease, and they are unchanged whenever no time
/// has passed or either prior reserve was zero.
pub fn update_reserves(pair: &mut Pair, balance_0: u64, balance_1: u64, now: u64) -> (r: Result<
    (),
    PairError,
>)
    ensures
        update_ok(*old(pair), now) ==> r == Ok::<(), PairError>(())
            && *final(pair) == updated_pair(*old(pair), balance_0, balance_1, now),
        !update_ok(*old(pair), now) ==> r == Err::<(), PairError>(PairError::Overflow)
            && *final(pair) == *old(pair),
        r is Ok ==> final(pair).price_0_cumulative_last >= old(pair).price_0_cumulative_last
            && final(pair).price_1_cumulative_last >= old(pair).price_1_cumulative_last,
        r is Ok && !takes_sample(*old(pair), now)
            ==> final(pair).price_0_cumulative_last == old(pair).price_0_cumulative_last
            && final(pair).price_1_cumulative_last == old(pair).price_1_cumulative_last,
{
    let elapsed: u64 = if now > pair.block_timestamp_last {
        now - pair.block_timestamp_last
    } else {
        0
    };
    if elapsed > 0 && pair.reserve_0 > 0 && pair.reserve_1 > 0 {
        let s0: u64 = match mul_div(pair.reserve_1, elapsed, pair.reserve_0) {
            Ok(v) => v,
            Err(e) => { return Err(e) },
        };
        let s1: u64 = match mul_div(pair.reserve_0, elapsed, pair.reserve_1) {
            Ok(v) => v,
            Err(e) => { return Err(e) },
        };
        if s0 > u64::MAX - pair.price_0_cumulative_last {
            return Err(PairError::Overflow);
        }
        if s1 > u64::MAX - pair.price_1_cumulative_last {
            return Err(PairError::Overflow);
        }
        pair.price_0_cumulative_last = pair.price_0_cumulative_last + s0;
        pair.price_1_cumulative_last = pair.price_1_cumulative_last + s1;
    }
    pair.reserve_0 = balance_0;
    pair.reserve_1 = balance_1;
    pair.block_timestamp_last = now;
    Ok(())
}

} // verus!
