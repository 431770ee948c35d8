//! Validated configuration records.  Loading (file, defaults, floating-point
//! conversion) is a caller concern; the core takes fixed-point values and
//! rejects degenerate geometry before any sample is processed.

use vstd::prelude::*;

use crate::fixed::{mag_of, GEOMETRY_LIMIT, SCALE, SPEED_LIMIT};

verus! {

/// How far `sin^2 + cos^2` may stray from one (in units of `SCALE^2`):
/// the slack a true sine/cosine pair can pick up from being rounded to six
/// decimal places.  Anything further apart is no rotation at all.
pub const ROTATION_TOLERANCE: i64 = 4_000_000;

/// Why a configuration was rejected.
#[derive(Clone, Copy, Debug, PartialEq, Eq, Structural)]
pub enum ConfigError {
    /// Offset, dead zone or half amplitude outside the representable range.
    GeometryOutOfRange,
    /// Half amplitude not strictly above the dead zone: the axis scaling
    /// would divide by zero (or flip sign).
    DegenerateAmplitude,
    /// Sine and cosine not a rotation: a component outside one unit, or the
    /// pair too far from the unit circle.
    RotationOutOfRange,
    /// Speed multiplier negative or outside the representable range.
    SpeedOutOfRange,
}

/// Geometry of one joystick: how a raw absolute sample is centered, dead-zoned,
/// scaled and rotated.  The rotation angle enters as its sine and cosine, both
/// fixed-point.
#[derive(Clone, Copy, Debug)]
pub struct JoystickConfig {
    pub offset_q: i64,
    pub dead_zone_q: i64,
    pub half_amplitude_q: i64,
    pub sin_q: i64,
    pub cos_q: i64,
}

impl JoystickConfig {
    pub open spec fn geometry_in_range(
        offset_q: i64,
        dead_zone_q: i64,
        half_amplitude_q: i64,
    ) -> bool {
        &&& -GEOMETRY_LIMIT <= offset_q <= GEOMETRY_LIMIT
        &&& 0 <= dead_zone_q <= GEOMETRY_LIMIT
        &&& 0 <= half_amplitude_q <= GEOMETRY_LIMIT
    }

    pub open spec fn rotation_in_range(sin_q: i64, cos_q: i64) -> bool {
        &&& -SCALE <= sin_q <= SCALE
        &&& -SCALE <= cos_q <= SCALE
        &&& mag_of(sin_q * sin_q + cos_q * cos_q - (SCALE as int) * (SCALE as int))
            <= ROTATION_TOLERANCE
    }

    pub open spec fn wf(self) -> bool {
        &&& Self::geometry_in_range(self.offset_q, self.dead_zone_q, self.half_amplitude_q)
        &&& self.dead_zone_q < self.half_amplitude_q
        &&& Self::rotation_in_range(self.sin_q, self.cos_q)
    }

    /// Builds a validated geometry, or says exactly why the values are
    /// rejected.  A half amplitude equal to (or below) the dead zone is a
    /// configuration error caught here, never at sample time.
    pub fn new(
        offset_q: i64,
        dead_zone_q: i64,
        half_amplitude_q: i64,
        sin_q: i64,
        cos_q: i64,
    ) -> (r: Result<JoystickConfig, ConfigError>)
        ensures
            r is Ok <==> {
                &&& Self::geometry_in_range(offset_q, dead_zone_q, half_amplitude_q)
                &&& dead_zone_q < half_amplitude_q
                &&& Self::rotation_in_range(sin_q, cos_q)
            },
            r matches Ok(c) ==> c == (JoystickConfig {
                offset_q,
                dead_zone_q,
                half_amplitude_q,
                sin_q,
                cos_q,
            }) && c.wf(),
            r == Err::<JoystickConfig, ConfigError>(ConfigError::GeometryOutOfRange) <==> !Self::geometry_in_range(
                offset_q,
                dead_zone_q,
                half_amplitude_q,
            ),
            r == Err::<JoystickConfig, ConfigError>(ConfigError::DegenerateAmplitude) <==> (
            Self::geometry_in_range(offset_q, dead_zone_q, half_amplitude_q)
                && dead_zone_q >= half_amplitude_q),
            r == Err::<JoystickConfig, ConfigError>(ConfigError::RotationOutOfRange) <==> (
            Self::geometry_in_range(offset_q, dead_zone_q, half_amplitude_q)
                && dead_zone_q < half_amplitude_q && !Self::rotation_in_range(sin_q, cos_q)),
    {
        if offset_q < -GEOMETRY_LIMIT || offset_q > GEOMETRY_LIMIT || dead_zone_q < 0
            || dead_zone_q > GEOMETRY_LIMIT || half_amplitude_q < 0
            || half_amplitude_q > GEOMETRY_LIMIT {
            return Err(ConfigError::GeometryOutOfRange);
        }
        if dead_zone_q >= half_amplitude_q {
            return Err(ConfigError::DegenerateAmplitude);
        }
        if sin_q < -SCALE || sin_q > SCALE || cos_q < -SCALE || cos_q > SCALE {
            return Err(ConfigError::RotationOutOfRange);
        }
        proof {
            assert(0 <= sin_q * sin_q <= 1_000_000_000_000 && 0 <= cos_q * cos_q
                <= 1_000_000_000_000) by (nonlinear_arith)
                requires
                    -1_000_000 <= sin_q <= 1_000_000,
                    -1_000_000 <= cos_q <= 1_000_000,
            ;
        }
        let norm: i64 = sin_q * sin_q + cos_q * cos_q;
        let unit: i64 = SCALE * SCALE;
        let off_unit: i64 = if norm >= unit {
            norm - unit
        } else {
            unit - norm
        };
        if off_unit > ROTATION_TOLERANCE {
            return Err(ConfigError::RotationOutOfRange);
        }
        Ok(JoystickConfig { offset_q, dead_zone_q, half_amplitude_q, sin_q, cos_q })
    }
}

/// Pointer-speed configuration: the multiplier applied to normalized velocity
/// when integrating it over elapsed time.
#[derive(Clone, Copy, Debug)]
pub struct MouseConfig {
    pub speed_q: i64,
}

impl MouseConfig {
    pub open spec fn wf(self) -> bool {
        0 <= self.speed_q <= SPEED_LIMIT
    }

    /// Builds a validated speed multiplier; negative or oversized values are
    /// rejected up front.
    pub fn new(speed_q: i64) -> (r: Result<MouseConfig, ConfigError>)
        ensures
            r is Ok <==> 0 <= speed_q <= SPEED_LIMIT,
            r matches Ok(c) ==> c == (MouseConfig { speed_q }) && c.wf(),
            r is Err ==> r == Err::<MouseConfig, ConfigError>(ConfigError::SpeedOutOfRange),
    {
        if speed_q < 0 || speed_q > SPEED_LIMIT {
            return Err(ConfigError::SpeedOutOfRange);
        }
        Ok(MouseConfig { speed_q })
    }
}

} // verus!
