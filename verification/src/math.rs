//! Overflow-checked 128-bit multiply/divide and an integer square root.

use vstd::prelude::*;
use crate::errors::PairError;

verus! {

/// The widened quotient floor(a * b / denom), over the mathematical integers.
pub open spec fn wide_quotient(a: u64, b: u64, denom: u64) -> int {
    (a * b) / (denom as int)
}

/// Whether `mul_div(a, b, denom)` succeeds: the divisor is non-zero and the
/// quotient fits the 64-bit output range.
pub open spec fn mul_div_ok(a: u64, b: u64, denom: u64) -> bool {
    denom != 0 && wide_quotient(a, b, denom) <= u64::MAX
}

/// What `mul_div` returns, as a total function of its arguments.
pub open spec fn mul_div_spec(a: u64, b: u64, denom: u64) -> Result<u64, PairError> {
    if mul_div_ok(a, b, denom) {
        Ok(wide_quotient(a, b, denom) as u64)
    } else {
        Err(PairError::Overflow)
    }
}

/// Multiplies `a` by `b` over a 128-bit intermediate, divides by `denom`,
/// and narrows back to 64 bits; fails with `Overflow` when `denom` is zero
/// or the quotient leaves the 64-bit range.
pub fn mul_div(a: u64, b: u64, denom: u64) -> (r: Result<u64, PairError>)
    ensures
        r == mul_div_spec(a, b, denom),
{
    if denom == 0 {
        return Err(PairError::Overflow);
    }
    proof {
        assert(a * b <= u128::MAX) by (nonlinear_arith)
            requires
                a <= u64::MAX,
                b <= u64::MAX,
        ;
    }
    let wide: u128 = (a as u128) * (b as u128);
    let q: u128 = wide / (denom as u128);
    if q > u64::MAX as u128 {
        return Err(PairError::Overflow);
    }
    Ok(q as u64)
}

/// floor(sqrt(n)), over the mathematical integers.
pub open spec fn sqrt_floor(n: nat) -> nat
    decreases n,
{
    if n == 0 {
        0
    } else {
        let p = sqrt_floor((n - 1) as nat);
        if (p + 1) * (p + 1) <= n {
            p + 1
        } else {
            p
        }
    }
}

/// `sqrt_floor(n)` is the unique r with r * r <= n < (r + 1) * (r + 1).
pub proof fn lemma_sqrt_floor_bounds(n: nat)
    ensures
        sqrt_floor(n) * sqrt_floor(n) <= n,
        n < (sqrt_floor(n) + 1) * (sqrt_floor(n) + 1),
    decreases n,
{
    let s = sqrt_floor(n);
    if n == 0 {
        assert(s == 0);
        assert(s * s <= n && n < (s + 1) * (s + 1)) by (nonlinear_arith)
            requires
                s == 0,
                n == 0,
        ;
    } else {
        lemma_sqrt_floor_bounds((n - 1) as nat);
        let p = sqrt_floor((n - 1) as nat);
        assert(p * p <= n - 1);
        assert(n - 1 < (p + 1) * (p + 1));
        if (p + 1) * (p + 1) <= n {
            assert(s == p + 1);
            assert(s * s <= n && n < (s + 1) * (s + 1)) by (nonlinear_arith)
                requires
                    s == p + 1,
                    (p + 1) * (p + 1) <= n,
                    n <= (p + 1) * (p + 1),
                    0 <= p,
            ;
        } else {
            assert(s == p);
            assert(s * s <= n && n < (s + 1) * (s + 1)) by (nonlinear_arith)
                requires
                    s == p,
                    p * p <= n - 1,
                    n < (p + 1) * (p + 1),
                    1 <= n,
            ;
        }
    }
}

/// Any r within the square-root bounds for n is `sqrt_floor(n)`.
pub proof fn lemma_sqrt_floor_unique(n: nat, r: nat)
    requires
        r * r <= n,
        n < (r + 1) * (r + 1),
    ensures
        r == sqrt_floor(n),
{
    lemma_sqrt_floor_bounds(n);
    let s = sqrt_floor(n);
    assert(r == s) by (nonlinear_arith)
        requires
            r * r <= n,
            n < (r + 1) * (r + 1),
            s * s <= n,
            n < (s + 1) * (s + 1),
            0 <= r,
            0 <= s,
    ;
}

/// One Babylonian step y = (x + value / x) / 2, with the facts the
/// surrounding loop needs: the step keeps an over-approximation of the
/// root, and the loop may stop as soon as the iterate fails to decrease.
fn sqrt_step(x: u128, value: u128) -> (y: u128)
    requires
        1 <= x,
        1 <= value,
        x <= value / 2 + 1,
        value < (x + 1) * (x + 1),
    ensures
        1 <= y,
        value < (y + 1) * (y + 1),
        x <= y ==> x * x <= value,
{
    proof {
        lemma_step_no_overflow(x as int, value as int);
    }
    let q: u128 = value / x;
    let s: u128 = x + q;
    let y: u128 = s / 2;
    proof {
        vstd::arithmetic::div_mod::lemma_fundamental_div_mod(value as int, x as int);
        vstd::arithmetic::div_mod::lemma_mod_division_less_than_divisor(value as int, x as int);
        assert(x * q <= value && value < x * q + x);
        vstd::arithmetic::div_mod::lemma_fundamental_div_mod(s as int, 2);
        vstd::arithmetic::div_mod::lemma_mod_division_less_than_divisor(s as int, 2);
        lemma_step_brackets_root(x as int, q as int, y as int, value as int);
        // y = 0 would force x = 1 and q = 0, leaving value below x * q + x = 1.
        if y == 0 {
            assert(x == 1 && q == 0);
            assert(x * q + x == 1);
            assert(false);
        }
    }
    y
}

/// The sum x + value / x stays within the 128-bit range whenever x is at
/// most value / 2 + 1 and over-approximates the root.
proof fn lemma_step_no_overflow(x: int, v: int)
    requires
        1 <= x,
        1 <= v,
        v <= u128::MAX,
        x <= v / 2 + 1,
        v < (x + 1) * (x + 1),
    ensures
        x + v / x <= u128::MAX,
{
    vstd::arithmetic::div_mod::lemma_fundamental_div_mod(v, x);
    vstd::arithmetic::div_mod::lemma_mod_division_less_than_divisor(v, x);
    let q = v / x;
    assert(x * q <= v);
    if x == 1 {
        assert(v < (x + 1) * (x + 1));
        assert((x + 1) * (x + 1) == 4) by (nonlinear_arith)
            requires
                x == 1,
        ;
        assert(q <= v) by (nonlinear_arith)
            requires
                x == 1,
                x * q <= v,
        ;
    } else if q <= 2 {
        vstd::arithmetic::div_mod::lemma_div_is_ordered(v, u128::MAX as int, 2);
        assert(x <= v / 2 + 1 <= u128::MAX / 2 + 1);
    } else {
        assert(x + q <= x * q) by (nonlinear_arith)
            requires
                2 <= x,
                3 <= q,
        ;
    }
}

/// After one Babylonian step, y still over-approximates the root, and if
/// the iterate did not decrease then x already under-approximates it.
proof fn lemma_step_brackets_root(x: int, q: int, y: int, v: int)
    requires
        1 <= x,
        0 <= q,
        0 <= y,
        x * q <= v,
        v < x * q + x,
        x + q - 1 <= 2 * y,
        2 * y <= x + q,
    ensures
        v < (y + 1) * (y + 1),
        x <= y ==> x * x <= v,
{
    assert(v < (y + 1) * (y + 1)) by (nonlinear_arith)
        requires
            1 <= x,
            0 <= q,
            0 <= y,
            v < x * q + x,
            x + q - 1 <= 2 * y,
    ;
    if x <= y {
        assert(x * x <= v) by (nonlinear_arith)
            requires
                1 <= x,
                x * q <= v,
                2 * y <= x + q,
                x <= y,
        ;
    }
}

/// Returns floor(sqrt(value)) by the Babylonian iteration, starting from
/// value / 2 + 1 and stopping when the iterate no longer decreases.
pub fn integer_sqrt(value: u128) -> (r: u128)
    ensures
        r == sqrt_floor(value as nat),
        r * r <= value,
        value < (r + 1) * (r + 1),
{
    if value == 0 {
        proof {
            lemma_sqrt_floor_bounds(0);
            assert(sqrt_floor(0) == 0);
        }
        return 0;
    }
    let mut x: u128 = value / 2 + 1;
    proof {
        lemma_first_iterate_over_root(value as int);
    }
    let mut y: u128 = sqrt_step(x, value);
    while y < x
        invariant
            1 <= value,
            1 <= y,
            1 <= x,
            x <= value / 2 + 1,
            value < (x + 1) * (x + 1),
            value < (y + 1) * (y + 1),
            x <= y ==> x * x <= value,
        decreases x,
    {
        x = y;
        y = sqrt_step(x, value);
    }
    proof {
        lemma_sqrt_floor_unique(value as nat, x as nat);
    }
    x
}

/// value / 2 + 1 starts above the square root of value.
proof fn lemma_first_iterate_over_root(v: int)
    requires
        1 <= v,
    ensures
        v < (v / 2 + 1 + 1) * (v / 2 + 1 + 1),
{
    vstd::arithmetic::div_mod::lemma_fundamental_div_mod(v, 2);
    let h = v / 2;
    assert(v <= 2 * h + 1);
    assert(2 * h + 1 < (h + 2) * (h + 2)) by (nonlinear_arith)
        requires
            0 <= h,
    ;
}

} // verus!
