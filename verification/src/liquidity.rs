//! Minting of liquidity-pool shares: the bootstrap regime for the first
//! deposit and the steady-state regime for every later one.

use vstd::prelude::*;
use crate::errors::PairError;
use crate::math::{mul_div, mul_div_ok, wide_quotient, integer_sqrt, sqrt_floor};

verus! {

/// Share floor minted once to the pool's own vault at pair creation and
/// never redeemable, so that a near-zero initial supply cannot be used to
/// manipulate the share price.
pub const MINIMUM_LIQUIDITY: u64 = 1000;

/// What the bootstrap (first-deposit) regime mints, as a total function:
/// floor(sqrt(amount_0 * amount_1)) - MINIMUM_LIQUIDITY, failing when the
/// root falls below the locked minimum.
pub open spec fn bootstrap_shares_spec(amount_0: u64, amount_1: u64) -> Result<u64, PairError> {
    let root = sqrt_floor((amount_0 * amount_1) as nat);
    if root < MINIMUM_LIQUIDITY {
        Err(PairError::InsufficientLiquidityMinted)
    } else {
        Ok((root - MINIMUM_LIQUIDITY) as u64)
    }
}

/// What the steady-state regime mints, as a total function: the smaller of
/// amount_0 * supply / reserve_0 and amount_1 * supply / reserve_1, failing
/// when a ratio overflows or the minimum is zero. Taking the smaller ratio
/// is the anti-dilution rule: a one-sided deposit earns no more shares than
/// its lesser side justifies.
pub open spec fn steady_shares_spec(
    amount_0: u64,
    amount_1: u64,
    reserve_0: u64,
    reserve_1: u64,
    lp_supply: u64,
) -> Result<u64, PairError> {
    if !mul_div_ok(amount_0, lp_supply, reserve_0) || !mul_div_ok(amount_1, lp_supply, reserve_1) {
        Err(PairError::Overflow)
    } else {
        let l0 = wide_quotient(amount_0, lp_supply, reserve_0);
        let l1 = wide_quotient(amount_1, lp_supply, reserve_1);
        let l = if l0 <= l1 {
            l0
        } else {
            l1
        };
        if l == 0 {
            Err(PairError::InsufficientLiquidityMinted)
        } else {
            Ok(l as u64)
        }
    }
}

/// What a deposit mints: the bootstrap regime when both reserves are zero,
/// the steady-state regime otherwise.
pub open spec fn liquidity_spec(
    amount_0: u64,
    amount_1: u64,
    reserve_0: u64,
    reserve_1: u64,
    lp_supply: u64,
) -> Result<u64, PairError> {
    if reserve_0 == 0 && reserve_1 == 0 {
        bootstrap_shares_spec(amount_0, amount_1)
    } else {
        steady_shares_spec(amount_0, amount_1, reserve_0, reserve_1, lp_supply)
    }
}

/// Shares for the first deposit into an empty pool.
pub fn mint_bootstrap(amount_0: u64, amount_1: u64) -> (r: Result<u64, PairError>)
    ensures
        r == bootstrap_shares_spec(amount_0, amount_1),
{
    proof {
        assert(amount_0 * amount_1 <= u64::MAX * u64::MAX && u64::MAX * u64::MAX <= u128::MAX)
            by (nonlinear_arith)
            requires
                amount_0 <= u64::MAX,
                amount_1 <= u64::MAX,
        ;
    }
    let wide: u128 = (amount_0 as u128) * (amount_1 as u128);
    let root: u128 = integer_sqrt(wide);
    proof {
        assert(root <= u64::MAX) by (nonlinear_arith)
            requires
                root * root <= wide,
                wide <= u64::MAX * u64::MAX,
        ;
    }
    if root < MINIMUM_LIQUIDITY as u128 {
        return Err(PairError::InsufficientLiquidityMinted);
    }
    Ok((root as u64) - MINIMUM_LIQUIDITY)
}

/// Shares for a deposit into a pool that already holds reserves, from the
/// pre-transfer reserves and the pre-mint share supply.
pub fn mint_steady(
    amount_0: u64,
    amount_1: u64,
    reserve_0: u64,
    reserve_1: u64,
    lp_supply: u64,
) -> (r: Result<u64, PairError>)
    ensures
        r == steady_shares_spec(amount_0, amount_1, reserve_0, reserve_1, lp_supply),
{
    let l0: u64 = match mul_div(amount_0, lp_supply, reserve_0) {
        Ok(v) => v,
        Err(e) => { return Err(e) },
    };
    let l1: u64 = match mul_div(amount_1, lp_supply, reserve_1) {
        Ok(v) => v,
        Err(e) => { return Err(e) },
    };
    let l: u64 = if l0 <= l1 {
        l0
    } else {
        l1
    };
    if l == 0 {
        return Err(PairError::InsufficientLiquidityMinted);
    }
    Ok(l)
}

/// Shares minted for a deposit of the given amounts, selecting the regime
/// from the pre-transfer reserves.
pub fn compute_liquidity(
    amount_0: u64,
    amount_1: u64,
    reserve_0: u64,
    reserve_1: u64,
    lp_supply: u64,
) -> (r: Result<u64, PairError>)
    ensures
        r == liquidity_spec(amount_0, amount_1, reserve_0, reserve_1, lp_supply),
{
    if reserve_0 == 0 && reserve_1 == 0 {
        mint_bootstrap(amount_0, amount_1)
    } else {
        mint_steady(amount_0, amount_1, reserve_0, reserve_1, lp_supply)
    }
}

} // verus!
