//! Multiplexes hot-pluggable absolute-axis input devices into a synthetic
//! relative pointer.  A pool of live devices is addressed by positional
//! dispatch tokens and kept consistent with the readiness multiplexer; a
//! fixed-point axis transform (dead zone, scaling, rotation) turns raw
//! samples into normalized velocity; and a motion integrator accumulates
//! that velocity over irregular time steps into whole-unit displacement,
//! carrying the sub-unit remainder so that no motion drifts away.

pub mod config;
pub mod devio;
pub mod event_loop;
pub mod fixed;
pub mod motion;
pub mod mux;
pub mod pool;
pub mod sample;
pub mod transform;
pub mod vmouse;
