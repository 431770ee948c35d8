//! The sample-to-motion pipeline: keeps the last raw value seen on each axis
//! (axes report independently, so the counterpart axis always contributes its
//! most recent sample), turns the pair into a rotated normalized velocity,
//! and integrates it into whole-unit pointer deltas.

use vstd::prelude::*;

use crate::config::{JoystickConfig, MouseConfig};
use crate::fixed::DT_LIMIT;
use crate::motion::{spec_carry, spec_delta, spec_increment, MotionIntegrator};
use crate::sample::{Axis, RawSample};
use crate::transform::{normalize, rotate, spec_normalize, spec_rotate_x, spec_rotate_y,
    ROTATED_LIMIT};

verus! {

/// The velocity pair derived from the last-seen raw samples: each axis
/// normalized, then the pair rotated by the configured angle.
pub open spec fn spec_velocity_x(cfg: JoystickConfig, val_x: int, val_y: int) -> int {
    spec_rotate_x(
        cfg.sin_q as int,
        cfg.cos_q as int,
        spec_normalize(cfg, val_x),
        spec_normalize(cfg, val_y),
    )
}

/// Second component of the derived velocity pair.
pub open spec fn spec_velocity_y(cfg: JoystickConfig, val_x: int, val_y: int) -> int {
    spec_rotate_y(
        cfg.sin_q as int,
        cfg.cos_q as int,
        spec_normalize(cfg, val_x),
        spec_normalize(cfg, val_y),
    )
}

/// Drives the virtual pointer from raw axis samples: the transform stage and
/// the integrator, with the last raw sample of each axis carried between
/// events.
#[derive(Clone, Copy, Debug)]
pub struct VMouseManager {
    pub config: JoystickConfig,
    pub val_x: i32,
    pub val_y: i32,
    pub motion: MotionIntegrator,
}

impl VMouseManager {
    pub open spec fn wf(self) -> bool {
        &&& self.config.wf()
        &&& self.motion.wf()
    }

    /// A fresh pipeline: both axes at raw zero, no velocity, no carry.
    pub fn new(joystick: &JoystickConfig, mouse: &MouseConfig) -> (r: VMouseManager)
        requires
            joystick.wf(),
            mouse.wf(),
        ensures
            r.wf(),
            r.config == *joystick,
            r.val_x == 0,
            r.val_y == 0,
            r.motion == (MotionIntegrator {
                speed_q: mouse.speed_q,
                velocity_x_q: 0,
                velocity_y_q: 0,
                remainder_x_q: 0,
                remainder_y_q: 0,
            }),
    {
        VMouseManager {
            config: *joystick,
            val_x: 0,
            val_y: 0,
            motion: MotionIntegrator::new(mouse),
        }
    }

    /// Takes one decoded sample: remembers it as the axis's last raw value
    /// (other events leave both axes as they were) and recomputes the
    /// velocity pair from the updated last-seen values.  Remainders are not
    /// touched: only a flush moves the pointer.
    pub fn map_event(&mut self, sample: RawSample)
        requires
            old(self).wf(),
        ensures
            final(self).wf(),
            final(self).config == old(self).config,
            final(self).val_x == if sample.axis is X {
                sample.value
            } else {
                old(self).val_x
            },
            final(self).val_y == if sample.axis is Y {
                sample.value
            } else {
                old(self).val_y
            },
            -ROTATED_LIMIT <= final(self).motion.velocity_x_q <= ROTATED_LIMIT,
            -ROTATED_LIMIT <= final(self).motion.velocity_y_q <= ROTATED_LIMIT,
            final(self).motion == (MotionIntegrator {
                velocity_x_q: spec_velocity_x(
                    old(self).config,
                    final(self).val_x as int,
                    final(self).val_y as int,
                ) as i64,
                velocity_y_q: spec_velocity_y(
                    old(self).config,
                    final(self).val_x as int,
                    final(self).val_y as int,
                ) as i64,
                ..old(self).motion
            }),
    {
        match sample.axis {
            Axis::X => {
                self.val_x = sample.value;
            },
            Axis::Y => {
                self.val_y = sample.value;
            },
            Axis::Other => {},
        }
        let nx = normalize(&self.config, self.val_x);
        let ny = normalize(&self.config, self.val_y);
        let (vx, vy) = rotate(&self.config, nx, ny);
        self.motion.set_velocity(vx, vy);
    }

    /// Integrates the current velocity over the elapsed time and returns the
    /// whole-unit deltas to emit; the sub-unit fraction stays carried.
    pub fn send_event(&mut self, dt_micros: u64) -> (r: (i32, i32))
        requires
            old(self).wf(),
            dt_micros <= DT_LIMIT,
        ensures
            final(self).wf(),
            final(self).config == old(self).config,
            final(self).val_x == old(self).val_x,
            final(self).val_y == old(self).val_y,
            ({
                let inc_x = spec_increment(
                    old(self).motion.speed_q as int,
                    old(self).motion.velocity_x_q as int,
                    dt_micros as int,
                );
                let inc_y = spec_increment(
                    old(self).motion.speed_q as int,
                    old(self).motion.velocity_y_q as int,
                    dt_micros as int,
                );
                &&& r.0 == spec_delta(old(self).motion.remainder_x_q as int, inc_x)
                &&& r.1 == spec_delta(old(self).motion.remainder_y_q as int, inc_y)
                &&& final(self).motion == (MotionIntegrator {
                    remainder_x_q: spec_carry(
                        old(self).motion.remainder_x_q as int,
                        inc_x,
                    ) as i64,
                    remainder_y_q: spec_carry(
                        old(self).motion.remainder_y_q as int,
                        inc_y,
                    ) as i64,
                    ..old(self).motion
                })
            }),
            old(self).motion.velocity_x_q == 0 ==> r.0 == 0 && final(self).motion.remainder_x_q
                == old(self).motion.remainder_x_q,
            old(self).motion.velocity_y_q == 0 ==> r.1 == 0 && final(self).motion.remainder_y_q
                == old(self).motion.remainder_y_q,
    {
        self.motion.flush(dt_micros)
    }
}

} // verus!
