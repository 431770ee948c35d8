//! Fixed-point base for the whole crate: signed values carrying six decimal
//! places, so that one normalized unit is `SCALE`.  Elapsed time is measured
//! in microseconds, which makes a microsecond count and a `SCALE`-scaled
//! second count the same number.

use vstd::prelude::*;

verus! {

/// One normalized unit in fixed-point representation (six decimal places).
pub const SCALE: i64 = 1_000_000;

/// Largest admissible magnitude for the axis-geometry settings (offset,
/// dead zone, half amplitude), fixed-point.  Generous: raw samples are
/// 32-bit, so the geometry never needs more than `i32::MAX * SCALE`.
pub const GEOMETRY_LIMIT: i64 = 4_000_000_000_000_000;

/// Largest admissible speed multiplier, fixed-point (a multiplier of 10^4).
pub const SPEED_LIMIT: i64 = 10_000_000_000;

/// Largest magnitude a velocity component can take: a rotation of a pair of
/// normalized components stays within two units.
pub const VELOCITY_LIMIT: i64 = 2_000_000;

/// Largest elapsed time accepted by one flush, in microseconds (one hour).
pub const DT_LIMIT: u64 = 3_600_000_000;

/// Sign of an integer: -1, 0 or 1.
pub open spec fn sign_of(x: int) -> int {
    if x > 0 {
        1
    } else if x < 0 {
        -1
    } else {
        0
    }
}

/// Magnitude of an integer.
pub open spec fn mag_of(x: int) -> int {
    if x < 0 {
        -x
    } else {
        x
    }
}

/// `x` forced into the interval `[lo, hi]`.
pub open spec fn clamp_to(x: int, lo: int, hi: int) -> int {
    if x < lo {
        lo
    } else if x > hi {
        hi
    } else {
        x
    }
}

/// Division truncating toward zero, for positive divisors: the meaning of
/// `/` on Rust's signed integers, as opposed to the Euclidean `/` of
/// specifications.
pub open spec fn tdiv(a: int, b: int) -> int {
    if a >= 0 {
        a / b
    } else {
        -((-a) / b)
    }
}

/// Truncating division leaves a remainder smaller than the divisor and of
/// the dividend's sign, and together they account for the dividend exactly.
pub proof fn lemma_tdiv_fundamental(a: int, b: int)
    requires
        b > 0,
    ensures
        a == b * tdiv(a, b) + (a - b * tdiv(a, b)),
        mag_of(a - b * tdiv(a, b)) < b,
        a >= 0 ==> a - b * tdiv(a, b) >= 0 && tdiv(a, b) >= 0,
        a <= 0 ==> a - b * tdiv(a, b) <= 0 && tdiv(a, b) <= 0,
{
    if a >= 0 {
        let q = a / b;
        vstd::arithmetic::div_mod::lemma_remainder(a, b);
        vstd::arithmetic::div_mod::lemma_div_pos_is_pos(a, b);
        assert(0 <= a - q * b < b);
        assert(tdiv(a, b) == q);
        assert(b * q == q * b) by (nonlinear_arith);
    } else {
        let n = -a;
        let q = n / b;
        vstd::arithmetic::div_mod::lemma_remainder(n, b);
        vstd::arithmetic::div_mod::lemma_div_pos_is_pos(n, b);
        assert(0 <= n - q * b < b);
        assert(tdiv(a, b) == -q);
        assert(b * (-q) == -(q * b)) by (nonlinear_arith);
        assert(a - b * tdiv(a, b) == -(n - q * b));
    }
}

/// A dividend smaller in magnitude than the divisor truncates to zero.
pub proof fn lemma_tdiv_small(a: int, b: int)
    requires
        b > 0,
        mag_of(a) < b,
    ensures
        tdiv(a, b) == 0,
{
    if a >= 0 {
        vstd::arithmetic::div_mod::lemma_basic_div(a, b);
    } else {
        vstd::arithmetic::div_mod::lemma_basic_div(-a, b);
    }
}

/// Truncating division is bounded by the linear quotient of any bound on
/// the dividend.
pub proof fn lemma_tdiv_bound(a: int, b: int, m: int)
    requires
        b > 0,
        m >= 0,
        mag_of(a) <= m * b,
    ensures
        mag_of(tdiv(a, b)) <= m,
{
    if a >= 0 {
        let q = a / b;
        vstd::arithmetic::div_mod::lemma_remainder(a, b);
        vstd::arithmetic::div_mod::lemma_div_pos_is_pos(a, b);
        if q > m {
            assert(q * b >= m * b + b) by (nonlinear_arith)
                requires
                    q >= m + 1 && b > 0,
            ;
            assert(false);
        }
        assert(tdiv(a, b) == q);
    } else {
        let n = -a;
        let q = n / b;
        vstd::arithmetic::div_mod::lemma_remainder(n, b);
        vstd::arithmetic::div_mod::lemma_div_pos_is_pos(n, b);
        if q > m {
            assert(q * b >= m * b + b) by (nonlinear_arith)
                requires
                    q >= m + 1 && b > 0,
            ;
            assert(false);
        }
        assert(tdiv(a, b) == -q);
    }
}

} // verus!
