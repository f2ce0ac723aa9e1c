//! Deterministic decimal rounding over fixed-point coordinates.
//!
//! World coordinates are stored as exact multiples of 1/600 of a unit
//! (`POS_SCALE` steps per unit) and velocities as tenths of a unit per
//! second (`VEL_SCALE` steps per unit).  Rounding a coordinate to `d`
//! decimal digits is then rounding the underlying integer to the nearest
//! multiple of `POS_SCALE / 10^d`, with ties broken toward the even
//! multiple (banker's rounding) at every digit count.

use vstd::prelude::*;
use vstd::arithmetic::div_mod::{lemma_fundamental_div_mod, lemma_fundamental_div_mod_converse};

verus! {

/// Fixed-point steps per world unit for positions: 1 step = 1/600 unit.
pub const POS_SCALE: i64 = 600;

/// Fixed-point steps per world unit for velocities: 1 step = 0.1 unit/s.
pub const VEL_SCALE: i64 = 10;

/// Largest magnitude accepted by the rounding primitives; all simulation
/// coordinates stay far below it.
pub const ROUND_LIMIT: i64 = 2_000_000_000_000_000;

/// The multiple of `m` nearest to `x`, ties broken toward the even multiple.
pub open spec fn round_mult(x: int, m: int) -> int
    recommends
        m >= 1,
{
    let q = x / m;
    let r = x % m;
    if 2 * r < m {
        q * m
    } else if 2 * r > m {
        (q + 1) * m
    } else if q % 2 == 0 {
        q * m
    } else {
        (q + 1) * m
    }
}

/// Rounding to a multiple of `m` yields a multiple of `m`.
pub proof fn lemma_round_mult_is_multiple(x: int, m: int)
    requires
        m >= 1,
    ensures
        round_mult(x, m) % m == 0,
{
    let q = x / m;
    assert((q * m) % m == 0) by {
        lemma_fundamental_div_mod_converse(q * m, m, q, 0);
    }
    assert(((q + 1) * m) % m == 0) by {
        lemma_fundamental_div_mod_converse((q + 1) * m, m, q + 1, 0);
    }
}

/// The rounded value differs from `x` by at most `m / 2`.
pub proof fn lemma_round_mult_close(x: int, m: int)
    requires
        m >= 1,
    ensures
        2 * (round_mult(x, m) - x) <= m,
        2 * (x - round_mult(x, m)) <= m,
{
    let q = x / m;
    let r = x % m;
    lemma_fundamental_div_mod(x, m);
    assert(x == q * m + r);
    assert((q + 1) * m == q * m + m) by (nonlinear_arith);
}

/// Rounding is symmetric under negation (even multiples stay even).
pub proof fn lemma_round_mult_negate(x: int, m: int)
    requires
        m >= 1,
    ensures
        round_mult(-x, m) == -round_mult(x, m),
{
    let q = x / m;
    let r = x % m;
    lemma_fundamental_div_mod(x, m);
    if r == 0 {
        assert(-x == (-q) * m + 0) by (nonlinear_arith)
            requires
                x == q * m + 0,
        ;
        lemma_fundamental_div_mod_converse(-x, m, -q, 0);
        assert(-x / m == -q && -x % m == 0);
        assert(round_mult(-x, m) == (-q) * m);
        assert(round_mult(x, m) == q * m);
        assert((-q) * m == -(q * m)) by (nonlinear_arith);
    } else {
        assert(-x == (-q - 1) * m + (m - r)) by (nonlinear_arith)
            requires
                x == q * m + r,
        ;
        lemma_fundamental_div_mod_converse(-x, m, -q - 1, m - r);
        let q2 = -x / m;
        let r2 = -x % m;
        assert(q2 == -q - 1 && r2 == m - r);
        if 2 * r < m {
            assert(2 * r2 > m);
            assert(round_mult(-x, m) == (q2 + 1) * m == (-q) * m);
            assert((-q) * m == -(q * m)) by (nonlinear_arith);
        } else if 2 * r > m {
            assert(2 * r2 < m);
            assert(round_mult(-x, m) == q2 * m == (-q - 1) * m);
            assert((-q - 1) * m == -((q + 1) * m)) by (nonlinear_arith);
        } else {
            assert(2 * r2 == m);
            if q % 2 == 0 {
                assert(q2 % 2 != 0) by {
                    lemma_fundamental_div_mod(q, 2);
                    lemma_fundamental_div_mod_converse(q2, 2, -(q / 2) - 1, 1);
                }
                assert(round_mult(-x, m) == (q2 + 1) * m == (-q) * m);
                assert((-q) * m == -(q * m)) by (nonlinear_arith);
            } else {
                assert(q % 2 == 1);
                assert(q2 % 2 == 0) by {
                    lemma_fundamental_div_mod(q, 2);
                    assert(q2 == -(q / 2) * 2 + (-2)) by (nonlinear_arith)
                        requires
                            q == (q / 2) * 2 + 1 && q2 == -q - 1,
                    ;
                    lemma_fundamental_div_mod_converse(q2, 2, -(q / 2) - 1, 0);
                }
                assert(round_mult(-x, m) == q2 * m == (-q - 1) * m);
                assert((-q - 1) * m == -((q + 1) * m)) by (nonlinear_arith);
            }
        }
    }
}

/// Nearest-multiple rounding for nonnegative values.
fn round_to_multiple_nonneg(x: i64, m: i64) -> (r: i64)
    requires
        0 <= x <= ROUND_LIMIT,
        1 <= m <= 1000,
    ensures
        r as int == round_mult(x as int, m as int),
        0 <= r <= x + m,
{
    let q: i64 = x / m;
    let rem: i64 = x % m;
    proof {
        lemma_fundamental_div_mod(x as int, m as int);
        assert(0 <= q * (m as int) <= x && (q + 1) * (m as int) == q * (m as int) + m)
            by (nonlinear_arith)
            requires
                q == x as int / m as int && m >= 1 && x >= 0 && x as int == q * m + rem
                    && 0 <= rem < m,
        ;
    }
    if 2 * rem < m {
        q * m
    } else if 2 * rem > m {
        (q + 1) * m
    } else if q % 2 == 0 {
        q * m
    } else {
        (q + 1) * m
    }
}

/// The multiple of `m` nearest to `x`, ties to the even multiple.
pub fn round_to_multiple(x: i64, m: i64) -> (r: i64)
    requires
        -ROUND_LIMIT <= x <= ROUND_LIMIT,
        1 <= m <= 1000,
    ensures
        r as int == round_mult(x as int, m as int),
        x - m <= r <= x + m,
{
    proof {
        lemma_round_mult_close(x as int, m as int);
    }
    if x >= 0 {
        round_to_multiple_nonneg(x, m)
    } else {
        let n = round_to_multiple_nonneg(-x, m);
        proof {
            lemma_round_mult_negate(-(x as int), m as int);
        }
        -n
    }
}

/// Number of fixed-point steps in one decimal place at `digits` digits:
/// the rounding granularity for positions rounded to `digits` digits.
pub open spec fn digit_step(digits: u32) -> int {
    if digits == 0 {
        600
    } else if digits == 1 {
        60
    } else {
        6
    }
}

/// Round a fixed-point position to `digits` decimal digits, ties to even.
///
/// The fixed-point resolution is 1/600 of a unit, so only digit counts up
/// to 2 denote a representable granularity; `digits == 0` rounds to a
/// whole number of units.  Non-finite inputs cannot arise: every value of
/// the fixed-point domain is finite.
pub fn round(x: i64, digits: u32) -> (r: i64)
    requires
        -ROUND_LIMIT <= x <= ROUND_LIMIT,
        digits <= 2,
    ensures
        r as int == round_mult(x as int, digit_step(digits)),
        x - 600 <= r <= x + 600,
{
    if digits == 0 {
        round_to_multiple(x, 600)
    } else if digits == 1 {
        round_to_multiple(x, 60)
    } else {
        round_to_multiple(x, 6)
    }
}

/// Rounding to `d` decimal digits (`1 <= d <= 2`) moves a coordinate by at
/// most half of one decimal place and lands on an exact `d`-digit value:
/// the result is a multiple of `10^-d` units and within `0.5 * 10^-d`
/// units of the input, both measured in fixed-point steps.
pub proof fn lemma_round_digits_sound(x: int, digits: u32)
    requires
        1 <= digits <= 2,
    ensures
        round_mult(x, digit_step(digits)) % digit_step(digits) == 0,
        2 * (round_mult(x, digit_step(digits)) - x) <= digit_step(digits),
        2 * (x - round_mult(x, digit_step(digits))) <= digit_step(digits),
{
    lemma_round_mult_is_multiple(x, digit_step(digits));
    lemma_round_mult_close(x, digit_step(digits));
}

} // verus!
