//! The readiness-driven dispatcher.  One value owns all mutable state — the
//! device pool, the sample pipeline and the tick timer — and exposes a single
//! `run_once` step: wait with a bounded timeout, dispatch every delivered
//! readiness token, then flush the elapsed time into whole-unit deltas for
//! the output sink.  The bounded timeout matters: motion must be flushed
//! periodically even when no new sample arrives.

use vstd::prelude::*;

use crate::config::{JoystickConfig, MouseConfig};
use crate::devio::{micros_between, monotonic_now, read_chunk, ReadOutcome};
use crate::fixed::{DT_LIMIT, SCALE};
use crate::motion::{spec_carry, spec_delta, spec_increment};
use crate::mux::{poll_collect, poll_regs, WaitError};
use crate::pool::{InputDevicePool, PoolError};
use crate::sample::{parse_sample, EVENT_RECORD_SIZE};
use crate::vmouse::VMouseManager;

verus! {

/// Token reserved for the hot-plug notification channel.
pub const HOTPLUG_TOKEN: usize = 0;

/// First token of the device pool, just above the reserved one.
pub const DEVICE_TOKEN_START: usize = 1;

/// Bounded wait per iteration, milliseconds: the flush cadence.
pub const WAIT_TIMEOUT_MS: u64 = 10;

/// Records one read can return.
const READ_RECORDS: usize = 64;

/// Reads one dispatch will attempt before yielding: the drain is bounded,
/// never an unbounded inner loop.
const DRAIN_BUDGET: usize = 1024;

/// A hot-plug notification, reduced to plain data by whoever watches the
/// notification channel.
#[derive(Debug)]
pub enum HotplugEvent {
    Added(String),
    Removed(String),
}

/// What dispatching one readiness token did.
#[derive(Clone, Copy, Debug, PartialEq, Eq, Structural)]
pub enum DispatchOutcome {
    /// Every currently available sample was drained and fed to the pipeline.
    Drained,
    /// The device reported gone and was removed from the pool: a hot-unplug
    /// seen before its notification.
    Removed,
    /// A read failed some other way; the round was dropped, the device
    /// stays registered.
    ReadFailed,
    /// The token belongs to no live device: a protocol anomaly, ignored.
    Unknown,
}

/// What one loop iteration reports back to its caller.
#[derive(Clone, Copy, Debug, PartialEq, Eq, Structural)]
pub struct StepReport {
    /// The hot-plug channel fired: its notifications should be fetched and
    /// applied.
    pub hotplug_ready: bool,
    /// Whole-unit deltas for the output sink; `(0, 0)` means nothing to emit.
    pub dx: i32,
    pub dy: i32,
    /// The elapsed time that was integrated, microseconds (saturated at
    /// `DT_LIMIT`).
    pub dt_micros: u64,
}

/// Why an iteration failed.  Both leave the multiplexer in doubt and are
/// fatal: the process stops rather than continue inconsistently.
#[derive(Clone, Copy, Debug, PartialEq, Eq, Structural)]
pub enum LoopError {
    /// The wait for readiness failed (not a mere interruption).
    Wait,
    /// A registration, rebind or release failed while mutating the pool.
    Registration,
}

/// The dispatcher's state: the pool of live devices, the sample-to-motion
/// pipeline, and the last tick of the flush timer.
pub struct EventLoop {
    pub pool: InputDevicePool,
    pub vmouse: VMouseManager,
    pub last_tick: std::time::Instant,
}

impl EventLoop {
    pub open spec fn wf(self) -> bool {
        &&& self.pool.wf()
        &&& self.vmouse.wf()
        &&& self.pool.start() == DEVICE_TOKEN_START as int
    }

    /// The loop's pact with the multiplexer is its pool's.
    pub open spec fn consistent(self, regs: Map<int, int>) -> bool {
        self.pool.consistent(regs)
    }

    /// A fresh loop: empty pool, pipeline at rest, timer started now.
    pub fn new(joystick: &JoystickConfig, mouse: &MouseConfig) -> (r: EventLoop)
        requires
            joystick.wf(),
            mouse.wf(),
        ensures
            r.wf(),
            r.pool.paths().len() == 0,
            r.vmouse.config == *joystick,
            r.vmouse.val_x == 0 && r.vmouse.val_y == 0,
            r.vmouse.motion.speed_q == mouse.speed_q,
            r.vmouse.motion.velocity_x_q == 0 && r.vmouse.motion.velocity_y_q == 0,
            r.vmouse.motion.remainder_x_q == 0 && r.vmouse.motion.remainder_y_q == 0,
    {
        EventLoop {
            pool: InputDevicePool::new(DEVICE_TOKEN_START),
            vmouse: VMouseManager::new(joystick, mouse),
            last_tick: monotonic_now(),
        }
    }

    /// Applies one hot-plug notification to the pool: an added path is
    /// opened and registered (already known or unopenable: a no-op), a
    /// removed path leaves the pool (unknown: a no-op).  Only a multiplexer
    /// refusal is an error.
    pub fn apply_hotplug_event(&mut self, poll: &mut mio::Poll, event: &HotplugEvent) -> (r:
        Result<(), PoolError>)
        requires
            old(self).wf(),
            old(self).consistent(poll_regs(*old(poll))),
            old(self).pool.paths().len() + DEVICE_TOKEN_START < usize::MAX,
        ensures
            final(self).wf(),
            final(self).vmouse == old(self).vmouse,
            final(self).pool.paths().len() <= old(self).pool.paths().len() + 1,
            r is Ok ==> final(self).consistent(poll_regs(*final(poll))),
            (r is Ok && (event matches HotplugEvent::Removed(p) ==> !final(self).pool.has_path(
                p@,
            ))) || r is Err,
            (r is Ok && (event matches HotplugEvent::Added(p) && old(self).pool.has_path(p@)
                ==> *final(self) == *old(self))) || r is Err,
            (event matches HotplugEvent::Removed(p) && !old(self).pool.has_path(p@)) ==> r == Ok::<
                (),
                PoolError,
            >(()),
            (event matches HotplugEvent::Added(p) && old(self).pool.has_path(p@)) ==> r == Ok::<
                (),
                PoolError,
            >(()),
    {
        match event {
            HotplugEvent::Added(path) => {
                match self.pool.insert_from_path(poll, path.clone()) {
                    Ok(_) => Ok(()),
                    Err(e) => Err(e),
                }
            },
            HotplugEvent::Removed(path) => {
                match self.pool.delete_from_path(poll, path) {
                    Ok(_) => Ok(()),
                    Err(e) => Err(e),
                }
            },
        }
    }

    /// Applies a batch of hot-plug notifications in order.
    pub fn apply_hotplug(&mut self, poll: &mut mio::Poll, events: &Vec<HotplugEvent>) -> (r:
        Result<(), PoolError>)
        requires
            old(self).wf(),
            old(self).consistent(poll_regs(*old(poll))),
            old(self).pool.paths().len() + events@.len() + DEVICE_TOKEN_START < usize::MAX,
        ensures
            final(self).wf(),
            final(self).vmouse == old(self).vmouse,
            r is Ok ==> final(self).consistent(poll_regs(*final(poll))),
            events@.len() == 0 ==> r == Ok::<(), PoolError>(()) && *final(self) == *old(self),
    {
        let end = events.len();
        let mut i: usize = 0;
        while i < end
            invariant
                i <= end,
                end == events@.len(),
                self.wf(),
                self.consistent(poll_regs(*poll)),
                self.vmouse == old(self).vmouse,
                i == 0 ==> *self == *old(self),
                self.pool.paths().len() <= old(self).pool.paths().len() + i,
                old(self).pool.paths().len() + events@.len() + DEVICE_TOKEN_START < usize::MAX,
            decreases end - i,
        {
            match self.apply_hotplug_event(poll, &events[i]) {
                Ok(()) => (),
                Err(e) => {
                    return Err(e);
                },
            }
            i = i + 1;
        }
        Ok(())
    }

    /// Dispatches one readiness token: drains every currently available
    /// sample from the device (bounded, never blocking) into the pipeline.
    /// A device that reports gone is removed from the pool; a read failure
    /// drops the round and keeps the device; an unrecognized token is
    /// ignored.
    pub fn dispatch_token(&mut self, poll: &mut mio::Poll, token: usize) -> (r: Result<
        DispatchOutcome,
        PoolError,
    >)
        requires
            old(self).wf(),
            old(self).consistent(poll_regs(*old(poll))),
        ensures
            final(self).wf(),
            r is Ok ==> final(self).consistent(poll_regs(*final(poll))),
            r == Ok::<DispatchOutcome, PoolError>(DispatchOutcome::Unknown)
                <==> !old(self).pool.token_in_range(token as int),
            r == Ok::<DispatchOutcome, PoolError>(DispatchOutcome::Unknown) ==> *final(self)
                == *old(self) && poll_regs(*final(poll)) == poll_regs(*old(poll)),
            r == Ok::<DispatchOutcome, PoolError>(DispatchOutcome::Removed)
                ==> final(self).pool.paths().len() + 1 == old(self).pool.paths().len(),
            !(r == Ok::<DispatchOutcome, PoolError>(DispatchOutcome::Removed) || r is Err)
                ==> final(self).pool == old(self).pool,
            final(self).vmouse.motion.remainder_x_q == old(self).vmouse.motion.remainder_x_q,
            final(self).vmouse.motion.remainder_y_q == old(self).vmouse.motion.remainder_y_q,
            final(self).vmouse.motion.speed_q == old(self).vmouse.motion.speed_q,
            final(self).vmouse.config == old(self).vmouse.config,
    {
        if !self.pool.contains(token) {
            return Ok(DispatchOutcome::Unknown);
        }
        let fd = match self.pool.get(token) {
            Some(d) => d.fd,
            None => {
                proof {
                    assert(false);
                }
                return Ok(DispatchOutcome::Unknown);
            },
        };
        let mut buf: Vec<u8> = vec![0u8; READ_RECORDS * EVENT_RECORD_SIZE];
        let mut budget: usize = DRAIN_BUDGET;
        loop
            invariant
                self.wf(),
                self.consistent(poll_regs(*poll)),
                self.pool == old(self).pool,
                old(self).pool.token_in_range(token as int),
                buf@.len() == READ_RECORDS * EVENT_RECORD_SIZE,
                self.vmouse.motion.remainder_x_q == old(self).vmouse.motion.remainder_x_q,
                self.vmouse.motion.remainder_y_q == old(self).vmouse.motion.remainder_y_q,
                self.vmouse.motion.speed_q == old(self).vmouse.motion.speed_q,
                self.vmouse.config == old(self).vmouse.config,
            decreases budget,
        {
            match read_chunk(fd, &mut buf) {
                ReadOutcome::Data(n) => {
                    if n == 0 {
                        return self.remove_gone(poll, token);
                    }
                    let mut off: usize = 0;
                    while off + EVENT_RECORD_SIZE <= n
                        invariant
                            off <= n,
                            n <= buf@.len(),
                            buf@.len() == READ_RECORDS * EVENT_RECORD_SIZE,
                            self.wf(),
                            self.consistent(poll_regs(*poll)),
                            self.pool == old(self).pool,
                            self.vmouse.motion.remainder_x_q == old(self).vmouse.motion.remainder_x_q,
                            self.vmouse.motion.remainder_y_q == old(self).vmouse.motion.remainder_y_q,
                            self.vmouse.motion.speed_q == old(self).vmouse.motion.speed_q,
                            self.vmouse.config == old(self).vmouse.config,
                        decreases n - off,
                    {
                        let s = parse_sample(&buf, off);
                        self.vmouse.map_event(s);
                        off = off + EVENT_RECORD_SIZE;
                    }
                },
                ReadOutcome::WouldBlock => {
                    return Ok(DispatchOutcome::Drained);
                },
                ReadOutcome::Gone => {
                    return self.remove_gone(poll, token);
                },
                ReadOutcome::Failed => {
                    return Ok(DispatchOutcome::ReadFailed);
                },
            }
            if budget <= 1 {
                return Ok(DispatchOutcome::Drained);
            }
            budget = budget - 1;
        }
    }

    /// Removes the device behind a token that reported gone.
    fn remove_gone(&mut self, poll: &mut mio::Poll, token: usize) -> (r: Result<
        DispatchOutcome,
        PoolError,
    >)
        requires
            old(self).wf(),
            old(self).consistent(poll_regs(*old(poll))),
            old(self).pool.token_in_range(token as int),
        ensures
            final(self).wf(),
            final(self).vmouse == old(self).vmouse,
            r is Ok ==> final(self).consistent(poll_regs(*final(poll))),
            r == Ok::<DispatchOutcome, PoolError>(DispatchOutcome::Removed) || r is Err,
            r is Ok ==> final(self).pool.paths().len() + 1 == old(self).pool.paths().len(),
    {
        match self.pool.delete_from_token(poll, token) {
            Ok(()) => Ok(DispatchOutcome::Removed),
            Err(_) => Err(PoolError::Registration),
        }
    }

    /// One iteration of the loop: a bounded wait for readiness, a dispatch
    /// of every delivered token (the reserved one only marks the hot-plug
    /// channel ready — fetching its notifications is the caller's, since it
    /// owns the channel), then a flush of the elapsed time into deltas.
    /// Dispatching replaces velocity but never touches the carried
    /// remainders, so the reported deltas and the new remainders account
    /// exactly for the iteration's increment over the remainders as they
    /// stood before the call — whatever samples arrived.
    pub fn run_once(&mut self, poll: &mut mio::Poll) -> (r: Result<StepReport, LoopError>)
        requires
            old(self).wf(),
            old(self).consistent(poll_regs(*old(poll))),
        ensures
            final(self).wf(),
            r is Ok ==> final(self).consistent(poll_regs(*final(poll))),
            match r {
                Ok(rep) => {
                    let inc_x = spec_increment(
                        final(self).vmouse.motion.speed_q as int,
                        final(self).vmouse.motion.velocity_x_q as int,
                        rep.dt_micros as int,
                    );
                    let inc_y = spec_increment(
                        final(self).vmouse.motion.speed_q as int,
                        final(self).vmouse.motion.velocity_y_q as int,
                        rep.dt_micros as int,
                    );
                    &&& rep.dt_micros <= DT_LIMIT
                    &&& rep.dx == spec_delta(old(self).vmouse.motion.remainder_x_q as int, inc_x)
                    &&& rep.dy == spec_delta(old(self).vmouse.motion.remainder_y_q as int, inc_y)
                    &&& final(self).vmouse.motion.remainder_x_q == spec_carry(
                        old(self).vmouse.motion.remainder_x_q as int,
                        inc_x,
                    )
                    &&& final(self).vmouse.motion.remainder_y_q == spec_carry(
                        old(self).vmouse.motion.remainder_y_q as int,
                        inc_y,
                    )
                    &&& (SCALE as int) * rep.dx + final(self).vmouse.motion.remainder_x_q == old(
                        self,
                    ).vmouse.motion.remainder_x_q + inc_x
                    &&& (SCALE as int) * rep.dy + final(self).vmouse.motion.remainder_y_q == old(
                        self,
                    ).vmouse.motion.remainder_y_q + inc_y
                    &&& final(self).vmouse.motion.speed_q == old(self).vmouse.motion.speed_q
                },
                Err(_) => true,
            },
    {
        let tokens = match poll_collect(poll, WAIT_TIMEOUT_MS) {
            Ok(t) => t,
            Err(WaitError::Interrupted) => Vec::new(),
            Err(WaitError::Failed) => {
                return Err(LoopError::Wait);
            },
        };
        let mut hotplug_ready = false;
        let end = tokens.len();
        let mut i: usize = 0;
        while i < end
            invariant
                i <= end,
                end == tokens@.len(),
                self.wf(),
                self.consistent(poll_regs(*poll)),
                self.vmouse.motion.remainder_x_q == old(self).vmouse.motion.remainder_x_q,
                self.vmouse.motion.remainder_y_q == old(self).vmouse.motion.remainder_y_q,
                self.vmouse.motion.speed_q == old(self).vmouse.motion.speed_q,
            decreases end - i,
        {
            let t = tokens[i];
            if t == HOTPLUG_TOKEN {
                hotplug_ready = true;
            } else {
                match self.dispatch_token(poll, t) {
                    Ok(_) => (),
                    Err(_) => {
                        return Err(LoopError::Registration);
                    },
                }
            }
            i = i + 1;
        }
        let now = monotonic_now();
        let mut dt = micros_between(&self.last_tick, &now);
        self.last_tick = now;
        if dt > DT_LIMIT {
            dt = DT_LIMIT;
        }
        let (dx, dy) = self.vmouse.send_event(dt);
        Ok(StepReport { hotplug_ready, dx, dy, dt_micros: dt })
    }
}

} // verus!
