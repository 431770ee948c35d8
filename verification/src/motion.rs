//! The motion integrator: per-axis velocity (replaced, never accumulated, by
//! each new sample) and a fractional remainder that carries sub-unit motion
//! from one flush to the next, so that no displacement is ever lost or
//! invented.

use vstd::prelude::*;

use crate::config::MouseConfig;
use crate::fixed::{lemma_tdiv_bound, lemma_tdiv_fundamental, lemma_tdiv_small, tdiv, DT_LIMIT,
    SCALE, SPEED_LIMIT, VELOCITY_LIMIT};

verus! {

/// Largest magnitude one flush can add to a remainder:
/// `DT_LIMIT * SPEED_LIMIT * VELOCITY_LIMIT / SCALE^2`.
pub const INCREMENT_LIMIT: i64 = 72_000_000_000_000;

/// What one flush adds to a remainder: elapsed time times speed times
/// velocity, brought back to remainder units.
pub open spec fn spec_increment(speed: int, vel: int, dt_micros: int) -> int {
    tdiv(dt_micros * speed * vel, (SCALE as int) * (SCALE as int))
}

/// The whole units emitted out of an accumulated remainder.
pub open spec fn spec_delta(rem: int, inc: int) -> int {
    tdiv(rem + inc, SCALE as int)
}

/// The fraction left behind after the whole units are emitted.
pub open spec fn spec_carry(rem: int, inc: int) -> int {
    rem + inc - (SCALE as int) * spec_delta(rem, inc)
}

/// Accumulates velocity over irregular time steps and emits whole-unit
/// displacement, keeping the sub-unit fraction for the next flush.
#[derive(Clone, Copy, Debug)]
pub struct MotionIntegrator {
    pub speed_q: i64,
    pub velocity_x_q: i64,
    pub velocity_y_q: i64,
    pub remainder_x_q: i64,
    pub remainder_y_q: i64,
}

impl MotionIntegrator {
    pub open spec fn wf(self) -> bool {
        &&& 0 <= self.speed_q <= SPEED_LIMIT
        &&& -VELOCITY_LIMIT <= self.velocity_x_q <= VELOCITY_LIMIT
        &&& -VELOCITY_LIMIT <= self.velocity_y_q <= VELOCITY_LIMIT
        &&& -SCALE < self.remainder_x_q < SCALE
        &&& -SCALE < self.remainder_y_q < SCALE
    }

    /// A fresh integrator: no velocity, no carried fraction.
    pub fn new(cfg: &MouseConfig) -> (r: MotionIntegrator)
        requires
            cfg.wf(),
        ensures
            r.wf(),
            r == (MotionIntegrator {
                speed_q: cfg.speed_q,
                velocity_x_q: 0,
                velocity_y_q: 0,
                remainder_x_q: 0,
                remainder_y_q: 0,
            }),
    {
        MotionIntegrator {
            speed_q: cfg.speed_q,
            velocity_x_q: 0,
            velocity_y_q: 0,
            remainder_x_q: 0,
            remainder_y_q: 0,
        }
    }

    /// Replaces the velocity pair; a new sample overrides, never adds to,
    /// the previous one.
    pub fn set_velocity(&mut self, vx: i64, vy: i64)
        requires
            old(self).wf(),
            -VELOCITY_LIMIT <= vx <= VELOCITY_LIMIT,
            -VELOCITY_LIMIT <= vy <= VELOCITY_LIMIT,
        ensures
            final(self).wf(),
            *final(self) == (MotionIntegrator { velocity_x_q: vx, velocity_y_q: vy, ..*old(self) }),
    {
        self.velocity_x_q = vx;
        self.velocity_y_q = vy;
    }

    /// Integrates the current velocity over `dt_micros` and emits the whole
    /// units; the fraction below one unit stays in the remainder.  Emitted
    /// units and remainder together account for the increment exactly, and
    /// an axis at rest emits nothing and keeps its remainder untouched.
    pub fn flush(&mut self, dt_micros: u64) -> (r: (i32, i32))
        requires
            old(self).wf(),
            dt_micros <= DT_LIMIT,
        ensures
            final(self).wf(),
            ({
                let inc_x = spec_increment(
                    old(self).speed_q as int,
                    old(self).velocity_x_q as int,
                    dt_micros as int,
                );
                let inc_y = spec_increment(
                    old(self).speed_q as int,
                    old(self).velocity_y_q as int,
                    dt_micros as int,
                );
                &&& r.0 == spec_delta(old(self).remainder_x_q as int, inc_x)
                &&& r.1 == spec_delta(old(self).remainder_y_q as int, inc_y)
                &&& final(self).remainder_x_q == spec_carry(old(self).remainder_x_q as int, inc_x)
                &&& final(self).remainder_y_q == spec_carry(old(self).remainder_y_q as int, inc_y)
                &&& (SCALE as int) * r.0 + final(self).remainder_x_q == old(self).remainder_x_q
                    + inc_x
                &&& (SCALE as int) * r.1 + final(self).remainder_y_q == old(self).remainder_y_q
                    + inc_y
            }),
            final(self).speed_q == old(self).speed_q,
            final(self).velocity_x_q == old(self).velocity_x_q,
            final(self).velocity_y_q == old(self).velocity_y_q,
            old(self).velocity_x_q == 0 ==> r.0 == 0 && final(self).remainder_x_q == old(
                self,
            ).remainder_x_q,
            old(self).velocity_y_q == 0 ==> r.1 == 0 && final(self).remainder_y_q == old(
                self,
            ).remainder_y_q,
    {
        let inc_x = increment(self.speed_q, self.velocity_x_q, dt_micros);
        let inc_y = increment(self.speed_q, self.velocity_y_q, dt_micros);
        let (dx, carry_x) = emit_axis(self.remainder_x_q, inc_x);
        let (dy, carry_y) = emit_axis(self.remainder_y_q, inc_y);
        proof {
            if self.velocity_x_q == 0 {
                lemma_increment_at_rest(
                    self.speed_q as int,
                    dt_micros as int,
                    self.remainder_x_q as int,
                );
            }
            if self.velocity_y_q == 0 {
                lemma_increment_at_rest(
                    self.speed_q as int,
                    dt_micros as int,
                    self.remainder_y_q as int,
                );
            }
        }
        self.remainder_x_q = carry_x;
        self.remainder_y_q = carry_y;
        (dx, dy)
    }
}

/// One flush's increment for one axis.
fn increment(speed: i64, vel: i64, dt_micros: u64) -> (r: i64)
    requires
        0 <= speed <= SPEED_LIMIT,
        -VELOCITY_LIMIT <= vel <= VELOCITY_LIMIT,
        dt_micros <= DT_LIMIT,
    ensures
        r == spec_increment(speed as int, vel as int, dt_micros as int),
        -INCREMENT_LIMIT <= r <= INCREMENT_LIMIT,
{
    proof {
        assert(0 <= (dt_micros as int) * (speed as int) <= 36_000_000_000_000_000_000
            && -72_000_000_000_000_000_000_000_000 <= (dt_micros as int) * (speed as int) * (
        vel as int) <= 72_000_000_000_000_000_000_000_000) by (nonlinear_arith)
            requires
                0 <= dt_micros <= 3_600_000_000,
                0 <= speed <= 10_000_000_000,
                -2_000_000 <= vel <= 2_000_000,
        ;
        lemma_tdiv_bound(
            (dt_micros as int) * (speed as int) * (vel as int),
            (SCALE as int) * (SCALE as int),
            INCREMENT_LIMIT as int,
        );
    }
    let p: i128 = (dt_micros as i128) * (speed as i128) * (vel as i128);
    let q: i128 = p / ((SCALE as i128) * (SCALE as i128));
    q as i64
}

/// Emits the whole units of `rem + inc` and returns what is left.
fn emit_axis(rem: i64, inc: i64) -> (r: (i32, i64))
    requires
        -SCALE < rem < SCALE,
        -INCREMENT_LIMIT <= inc <= INCREMENT_LIMIT,
    ensures
        r.0 == spec_delta(rem as int, inc as int),
        r.1 == spec_carry(rem as int, inc as int),
        -SCALE < r.1 < SCALE,
{
    proof {
        lemma_tdiv_fundamental(rem + inc, SCALE as int);
        lemma_tdiv_bound(rem + inc, SCALE as int, 72_000_001);
    }
    let total: i64 = rem + inc;
    let whole: i64 = total / SCALE;
    let carry: i64 = total - whole * SCALE;
    (whole as i32, carry)
}

/// At rest nothing accrues: a zero velocity gives a zero increment, and a
/// remainder below one unit emits nothing.
proof fn lemma_increment_at_rest(speed: int, dt_micros: int, rem: int)
    requires
        -(SCALE as int) < rem < SCALE as int,
    ensures
        spec_increment(speed, 0, dt_micros) == 0,
        spec_delta(rem, 0) == 0,
        spec_carry(rem, 0) == rem,
{
    assert(dt_micros * speed * 0 == 0) by (nonlinear_arith);
    vstd::arithmetic::div_mod::lemma_div_of0((SCALE as int) * (SCALE as int));
    lemma_tdiv_small(rem, SCALE as int);
}

/// The sum of a sequence of increments.
pub open spec fn sum_of(s: Seq<int>) -> int
    decreases s.len(),
{
    if s.len() == 0 {
        0
    } else {
        sum_of(s.drop_last()) + s.last()
    }
}

/// The remainder an axis carries after a run of flushes with the given
/// increments, starting from `rem0`.
pub open spec fn carry_after(rem0: int, incs: Seq<int>) -> int
    decreases incs.len(),
{
    if incs.len() == 0 {
        rem0
    } else {
        spec_carry(carry_after(rem0, incs.drop_last()), incs.last())
    }
}

/// The total whole units an axis emits over a run of flushes with the given
/// increments, starting from `rem0`.
pub open spec fn emitted_after(rem0: int, incs: Seq<int>) -> int
    decreases incs.len(),
{
    if incs.len() == 0 {
        0
    } else {
        emitted_after(rem0, incs.drop_last()) + spec_delta(
            carry_after(rem0, incs.drop_last()),
            incs.last(),
        )
    }
}

/// Integration is drift-free: over any run of flushes, the emitted whole
/// units and the final remainder together equal the initial remainder plus
/// every accumulated increment, and the carried remainder always stays below
/// one unit.  The emitted total therefore never strays more than one unit
/// from the exact integral of velocity over time.
pub proof fn lemma_flush_drift_free(rem0: int, incs: Seq<int>)
    requires
        -(SCALE as int) < rem0 < SCALE as int,
    ensures
        (SCALE as int) * emitted_after(rem0, incs) + carry_after(rem0, incs) == rem0 + sum_of(
            incs,
        ),
        -(SCALE as int) < carry_after(rem0, incs) < SCALE as int,
    decreases incs.len(),
{
    if incs.len() > 0 {
        lemma_flush_drift_free(rem0, incs.drop_last());
        let r = carry_after(rem0, incs.drop_last());
        let i = incs.last();
        lemma_tdiv_fundamental(r + i, SCALE as int);
        assert((SCALE as int) * (emitted_after(rem0, incs.drop_last()) + spec_delta(r, i)) == (
        SCALE as int) * emitted_after(rem0, incs.drop_last()) + (SCALE as int) * spec_delta(
            r,
            i,
        ));
    }
}

} // verus!
