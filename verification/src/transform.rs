//! The axis transform: a raw absolute sample becomes a normalized signed
//! unit in `[-SCALE, SCALE]` (centering, dead zone, scaling, saturation),
//! and a pair of normalized components is rotated by the configured angle.

use vstd::prelude::*;

use crate::config::{JoystickConfig, ROTATION_TOLERANCE};
use crate::fixed::{clamp_to, mag_of, sign_of, tdiv, SCALE};

verus! {

/// Largest magnitude of a rotated component: the diagonal of a unit pair
/// (the square root of two), plus the rounding a valid sine/cosine pair and
/// the truncation can add.
pub const ROTATED_LIMIT: i64 = 1_414_220;

/// The normalized value of one raw sample: centered on the offset, zero
/// inside the dead zone, scaled linearly between dead zone and half
/// amplitude, saturating at one unit, and carrying the sign of the centered
/// sample.
pub open spec fn spec_normalize(cfg: JoystickConfig, raw: int) -> int {
    let centered = raw * (SCALE as int) - cfg.offset_q;
    let scaled = clamp_to(
        tdiv(
            (mag_of(centered) - cfg.dead_zone_q) * (SCALE as int),
            cfg.half_amplitude_q - cfg.dead_zone_q,
        ),
        0,
        SCALE as int,
    );
    sign_of(centered) * scaled
}

/// First component of the rotated pair: `x cos + y sin`, in units of `SCALE`.
pub open spec fn spec_rotate_x(sin_q: int, cos_q: int, x: int, y: int) -> int {
    tdiv(x * cos_q + y * sin_q, SCALE as int)
}

/// Second component of the rotated pair: `y cos - x sin`, in units of `SCALE`.
pub open spec fn spec_rotate_y(sin_q: int, cos_q: int, x: int, y: int) -> int {
    tdiv(y * cos_q - x * sin_q, SCALE as int)
}

/// A dead-zoned magnitude never scales to anything: the clamped quotient is
/// zero whenever the magnitude does not exceed the dead zone.
proof fn lemma_scaled_zero(num: int, den: int)
    requires
        den > 0,
        num <= 0,
    ensures
        clamp_to(tdiv(num * (SCALE as int), den), 0, SCALE as int) == 0,
{
    let a = num * (SCALE as int);
    if a == 0 {
        vstd::arithmetic::div_mod::lemma_div_of0(den);
    } else {
        vstd::arithmetic::div_mod::lemma_div_pos_is_pos(-a, den);
    }
}

/// Normalizes one raw sample against the configured geometry.
pub fn normalize(cfg: &JoystickConfig, raw: i32) -> (r: i64)
    requires
        cfg.wf(),
    ensures
        r == spec_normalize(*cfg, raw as int),
        -SCALE <= r <= SCALE,
{
    let centered: i64 = (raw as i64) * SCALE - cfg.offset_q;
    let neg = centered < 0;
    let mag: i64 = if neg {
        -centered
    } else {
        centered
    };
    if mag <= cfg.dead_zone_q {
        proof {
            lemma_scaled_zero(
                mag as int - cfg.dead_zone_q as int,
                cfg.half_amplitude_q - cfg.dead_zone_q,
            );
        }
        return 0;
    }
    let num: i64 = mag - cfg.dead_zone_q;
    let den: i64 = cfg.half_amplitude_q - cfg.dead_zone_q;
    let scaled: i64 = if num >= den {
        proof {
            vstd::arithmetic::div_mod::lemma_div_is_ordered(
                den * (SCALE as int),
                num * (SCALE as int),
                den as int,
            );
            vstd::arithmetic::div_mod::lemma_div_multiples_vanish(SCALE as int, den as int);
        }
        SCALE
    } else {
        proof {
            vstd::arithmetic::div_mod::lemma_multiply_divide_lt(
                num * (SCALE as int),
                den as int,
                SCALE as int,
            );
            vstd::arithmetic::div_mod::lemma_div_pos_is_pos(num * (SCALE as int), den as int);
        }
        ((num as u128 * SCALE as u128) / (den as u128)) as i64
    };
    if neg {
        -scaled
    } else {
        scaled
    }
}

/// Law: the rotation is an isometry of the pair before the final truncation.
/// The rotated components' squared norm equals the pair's squared norm times
/// `sin^2 + cos^2`, exactly; and since a valid configuration pins that factor
/// to one unit within the rounding allowance, the squared norm is preserved
/// within `2 * SCALE^2 * ROTATION_TOLERANCE`.  The configured angle changes
/// the direction of motion, never its magnitude beyond that allowance and
/// the sub-unit truncation.
pub proof fn lemma_rotation_preserves_norm(sin_q: int, cos_q: int, x: int, y: int)
    requires
        mag_of(sin_q * sin_q + cos_q * cos_q - (SCALE as int) * (SCALE as int))
            <= ROTATION_TOLERANCE,
        -(SCALE as int) <= x <= SCALE as int,
        -(SCALE as int) <= y <= SCALE as int,
    ensures
        (x * cos_q + y * sin_q) * (x * cos_q + y * sin_q) + (y * cos_q - x * sin_q) * (y * cos_q
            - x * sin_q) == (x * x + y * y) * (cos_q * cos_q + sin_q * sin_q),
        mag_of(
            (x * cos_q + y * sin_q) * (x * cos_q + y * sin_q) + (y * cos_q - x * sin_q) * (y
                * cos_q - x * sin_q) - (x * x + y * y) * ((SCALE as int) * (SCALE as int)),
        ) <= 2 * (SCALE as int) * (SCALE as int) * (ROTATION_TOLERANCE as int),
{
    lemma_square_of_sum(x * cos_q, y * sin_q);
    lemma_square_of_difference(y * cos_q, x * sin_q);
    assert((x * cos_q) * (y * sin_q) == (y * cos_q) * (x * sin_q)) by (nonlinear_arith);
    assert((x * cos_q) * (x * cos_q) == (x * x) * (cos_q * cos_q)) by (nonlinear_arith);
    assert((y * sin_q) * (y * sin_q) == (y * y) * (sin_q * sin_q)) by (nonlinear_arith);
    assert((y * cos_q) * (y * cos_q) == (y * y) * (cos_q * cos_q)) by (nonlinear_arith);
    assert((x * sin_q) * (x * sin_q) == (x * x) * (sin_q * sin_q)) by (nonlinear_arith);
    lemma_sum_of_products(x * x, y * y, cos_q * cos_q, sin_q * sin_q);
    lemma_multiply_out_difference(
        x * x + y * y,
        cos_q * cos_q + sin_q * sin_q,
        (SCALE as int) * (SCALE as int),
    );
    assert(0 <= x * x + y * y <= 2_000_000_000_000) by (nonlinear_arith)
        requires
            -1_000_000 <= x <= 1_000_000 && -1_000_000 <= y <= 1_000_000,
    ;
    lemma_bounded_product(
        x * x + y * y,
        cos_q * cos_q + sin_q * sin_q - (SCALE as int) * (SCALE as int),
    );
}

/// `(a + b)^2` expanded.
proof fn lemma_square_of_sum(a: int, b: int)
    ensures
        (a + b) * (a + b) == a * a + 2 * (a * b) + b * b,
{
    assert((a + b) * (a + b) == a * a + 2 * (a * b) + b * b) by (nonlinear_arith);
}

/// `(a - b)^2` expanded.
proof fn lemma_square_of_difference(a: int, b: int)
    ensures
        (a - b) * (a - b) == a * a - 2 * (a * b) + b * b,
{
    assert((a - b) * (a - b) == a * a - 2 * (a * b) + b * b) by (nonlinear_arith);
}

/// Four cross products regrouped as a product of sums.
proof fn lemma_sum_of_products(p: int, q: int, u: int, v: int)
    ensures
        p * u + q * v + q * u + p * v == (p + q) * (u + v),
{
    assert(p * u + q * v + q * u + p * v == (p + q) * (u + v)) by (nonlinear_arith);
}

/// Multiplication distributed over a difference.
proof fn lemma_multiply_out_difference(n: int, a: int, b: int)
    ensures
        n * a - n * b == n * (a - b),
{
    assert(n * a - n * b == n * (a - b)) by (nonlinear_arith);
}

/// A product of a small nonnegative factor and a small factor is small.
proof fn lemma_bounded_product(n: int, d: int)
    requires
        0 <= n <= 2_000_000_000_000,
        -4_000_000 <= d <= 4_000_000,
    ensures
        -8_000_000_000_000_000_000 <= n * d <= 8_000_000_000_000_000_000,
{
    assert(-8_000_000_000_000_000_000 <= n * d <= 8_000_000_000_000_000_000)
        by (nonlinear_arith)
        requires
            0 <= n <= 2_000_000_000_000 && -4_000_000 <= d <= 4_000_000,
    ;
}

/// Rotates a pair of normalized components by the configured angle.  A valid
/// configuration keeps sine and cosine on the unit circle, so each rotated
/// component stays within the diagonal of a unit pair.
pub fn rotate(cfg: &JoystickConfig, x: i64, y: i64) -> (r: (i64, i64))
    requires
        cfg.wf(),
        -SCALE <= x <= SCALE,
        -SCALE <= y <= SCALE,
    ensures
        r.0 == spec_rotate_x(cfg.sin_q as int, cfg.cos_q as int, x as int, y as int),
        r.1 == spec_rotate_y(cfg.sin_q as int, cfg.cos_q as int, x as int, y as int),
        -ROTATED_LIMIT <= r.0 <= ROTATED_LIMIT,
        -ROTATED_LIMIT <= r.1 <= ROTATED_LIMIT,
{
    proof {
        assert(-1_000_000_000_000 <= x * cfg.cos_q <= 1_000_000_000_000
            && -1_000_000_000_000 <= y * cfg.sin_q <= 1_000_000_000_000
            && -1_000_000_000_000 <= x * cfg.sin_q <= 1_000_000_000_000
            && -1_000_000_000_000 <= y * cfg.cos_q <= 1_000_000_000_000) by (nonlinear_arith)
            requires
                -1_000_000 <= x <= 1_000_000,
                -1_000_000 <= y <= 1_000_000,
                -1_000_000 <= cfg.sin_q <= 1_000_000,
                -1_000_000 <= cfg.cos_q <= 1_000_000,
        ;
    }
    let tx: i64 = x * cfg.cos_q + y * cfg.sin_q;
    let ty: i64 = y * cfg.cos_q - x * cfg.sin_q;
    proof {
        lemma_rotation_preserves_norm(cfg.sin_q as int, cfg.cos_q as int, x as int, y as int);
        assert(0 <= (x as int) * x + (y as int) * y <= 2_000_000_000_000) by (nonlinear_arith)
            requires
                -1_000_000 <= x <= 1_000_000 && -1_000_000 <= y <= 1_000_000,
        ;
        lemma_norm_budget(
            (x as int) * x + (y as int) * y,
            (cfg.cos_q as int) * cfg.cos_q + (cfg.sin_q as int) * cfg.sin_q,
        );
        lemma_rotated_component_bound(tx as int, ty as int);
        crate::fixed::lemma_tdiv_bound(tx as int, SCALE as int, ROTATED_LIMIT as int);
        crate::fixed::lemma_tdiv_bound(ty as int, SCALE as int, ROTATED_LIMIT as int);
    }
    (tx / SCALE, ty / SCALE)
}

/// The squared norm of the rotated pair fits the diagonal budget: a unit
/// pair's squared norm times a near-unit circle factor.
proof fn lemma_norm_budget(n: int, m: int)
    requires
        0 <= n <= 2_000_000_000_000,
        0 <= m <= 1_000_004_000_000,
    ensures
        n * m <= 2_000_008_000_000_000_000_000_000,
{
    assert(n * m <= 2_000_008_000_000_000_000_000_000) by (nonlinear_arith)
        requires
            0 <= n <= 2_000_000_000_000 && 0 <= m <= 1_000_004_000_000,
    ;
}

/// A pair whose squared norm stays within the rotated budget has each
/// component within the diagonal bound.
proof fn lemma_rotated_component_bound(t0: int, t1: int)
    requires
        t0 * t0 + t1 * t1 <= 2_000_000_000_000 * (1_000_000_000_000
            + ROTATION_TOLERANCE as int),
    ensures
        mag_of(t0) <= (ROTATED_LIMIT as int) * (SCALE as int),
        mag_of(t1) <= (ROTATED_LIMIT as int) * (SCALE as int),
{
    assert(-1_414_220_000_000 <= t0 <= 1_414_220_000_000 && -1_414_220_000_000 <= t1
        <= 1_414_220_000_000) by (nonlinear_arith)
        requires
            t0 * t0 + t1 * t1 <= 2_000_008_000_000_000_000_000_000,
    ;
}

} // verus!
