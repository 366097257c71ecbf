//! The proportional quote: the counter-asset amount that keeps the current
//! reserve ratio, rounded in favour of the pool.

use vstd::prelude::*;
use vstd::arithmetic::div_mod::{lemma_fundamental_div_mod, lemma_div_is_ordered};
use vstd::arithmetic::div_mod::lemma_mod_division_less_than_divisor;
use vstd::arithmetic::mul::lemma_mul_inequality;
use crate::errors::PairError;
use crate::math::{mul_div, mul_div_spec, wide_quotient, mul_div_ok};

verus! {

/// What `quote` returns, as a total function of its arguments.
pub open spec fn quote_spec(amount_a: u64, reserve_a: u64, reserve_b: u64) -> Result<
    u64,
    PairError,
> {
    if amount_a == 0 {
        Err(PairError::InsufficientAmount)
    } else if reserve_a == 0 || reserve_b == 0 {
        Err(PairError::InsufficientLiquidity)
    } else {
        mul_div_spec(amount_a, reserve_b, reserve_a)
    }
}

/// Computes floor(amount_a * reserve_b / reserve_a), the deposit of asset B
/// that matches a deposit of `amount_a` of asset A at the current reserves.
///
/// Fails with `InsufficientAmount` when `amount_a` is zero, with
/// `InsufficientLiquidity` when either reserve is zero, and with `Overflow`
/// when the quotient leaves the 64-bit range.
pub fn quote(amount_a: u64, reserve_a: u64, reserve_b: u64) -> (r: Result<u64, PairError>)
    ensures
        r == quote_spec(amount_a, reserve_a, reserve_b),
        (amount_a > 0 && reserve_a > 0 && reserve_b > 0 && mul_div_ok(amount_a, reserve_b, reserve_a))
            <==> r is Ok,
        r is Ok ==> r->Ok_0 == wide_quotient(amount_a, reserve_b, reserve_a),
{
    if amount_a == 0 {
        return Err(PairError::InsufficientAmount);
    }
    if reserve_a == 0 || reserve_b == 0 {
        return Err(PairError::InsufficientLiquidity);
    }
    mul_div(amount_a, reserve_b, reserve_a)
}

/// Law: the quote is monotonically non-decreasing in the deposited
/// amount. Whenever both quotes succeed, the smaller deposit is quoted
/// the smaller (or an equal) counter-amount.
pub proof fn lemma_quote_monotonic(a1: u64, a2: u64, reserve_a: u64, reserve_b: u64)
    requires
        reserve_a > 0,
        a1 <= a2,
    ensures
        wide_quotient(a1, reserve_b, reserve_a) <= wide_quotient(a2, reserve_b, reserve_a),
        quote_spec(a1, reserve_a, reserve_b) is Ok && quote_spec(a2, reserve_a, reserve_b) is Ok
            ==> quote_spec(a1, reserve_a, reserve_b)->Ok_0 <= quote_spec(
            a2,
            reserve_a,
            reserve_b,
        )->Ok_0,
{
    lemma_mul_inequality(a1 as int, a2 as int, reserve_b as int);
    lemma_div_is_ordered(a1 * reserve_b, a2 * reserve_b, reserve_a as int);
}

/// Law: a deposit of (amount_a, quote(amount_a)) preserves the reserve
/// ratio up to one rounding unit. The cross products of the amounts differ
/// by less than `reserve_a`, and the new reserves keep exactly that
/// difference, so reserve_a_new / reserve_b_new == reserve_a / reserve_b up
/// to a deficit of strictly less than one unit of asset A per unit of B.
pub proof fn lemma_quote_preserves_ratio(amount_a: u64, reserve_a: u64, reserve_b: u64)
    requires
        amount_a > 0,
        reserve_a > 0,
        reserve_b > 0,
    ensures
        ({
            let amount_b = wide_quotient(amount_a, reserve_b, reserve_a);
            0 <= amount_a * reserve_b - amount_b * reserve_a < reserve_a
                && (reserve_a + amount_a) * reserve_b - (reserve_b + amount_b) * reserve_a
                    == amount_a * reserve_b - amount_b * reserve_a
        }),
{
    let amount_b = wide_quotient(amount_a, reserve_b, reserve_a);
    lemma_fundamental_div_mod(amount_a * reserve_b, reserve_a as int);
    lemma_mod_division_less_than_divisor(amount_a * reserve_b, reserve_a as int);
    assert(amount_a * reserve_b - amount_b * reserve_a == (amount_a * reserve_b) % (
    reserve_a as int)) by (nonlinear_arith)
        requires
            reserve_a != 0,
            amount_b == (amount_a * reserve_b) / (reserve_a as int),
            amount_a * reserve_b == (reserve_a as int) * ((amount_a * reserve_b) / (
            reserve_a as int)) + (amount_a * reserve_b) % (reserve_a as int),
    ;
    assert((reserve_a + amount_a) * reserve_b - (reserve_b + amount_b) * reserve_a == amount_a
        * reserve_b - amount_b * reserve_a) by (nonlinear_arith);
}

} // verus!
