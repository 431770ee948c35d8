use mouse2joystick::config::MouseConfig;
use mouse2joystick::fixed::SCALE;
use mouse2joystick::motion::MotionIntegrator;
use mouse2joystick::sample::{Axis, RawSample};
use mouse2joystick::config::JoystickConfig;
use mouse2joystick::vmouse::VMouseManager;

fn integrator_at(speed_multiplier: i64, vx: i64, vy: i64) -> MotionIntegrator {
    let cfg = MouseConfig::new(speed_multiplier * SCALE).unwrap();
    let mut m = MotionIntegrator::new(&cfg);
    m.set_velocity(vx, vy);
    m
}

#[test]
fn ten_small_flushes_sum_to_five() {
    // speed 100, velocity 1.0, dt 5 ms: each flush adds 0.5 units
    let mut m = integrator_at(100, SCALE, 0);
    let mut total: i64 = 0;
    for _ in 0..10 {
        let (dx, dy) = m.flush(5000);
        assert_eq!(dy, 0);
        total += dx as i64;
    }
    assert!((total - 5).abs() <= 1);
    assert_eq!(total, 5);
}

#[test]
fn long_run_has_no_drift() {
    // 1000 flushes of 0.5 units each: the exact integral is 500
    let mut m = integrator_at(100, SCALE, 0);
    let mut total: i64 = 0;
    for _ in 0..1000 {
        let (dx, _) = m.flush(5000);
        total += dx as i64;
    }
    let cumulative_error = (total as f64) - 500.0;
    assert!(cumulative_error.abs() < 1.0);
}

#[test]
fn irregular_steps_conserve_motion_exactly() {
    // emitted units (in SCALE) plus final remainder must equal the exact sum
    // of the increments
    let mut m = integrator_at(137, 731_250, -425_000);
    let steps: [u64; 7] = [1, 9999, 5000, 12345, 1, 300000, 77];
    let mut emitted_x: i128 = 0;
    let mut expected_x: i128 = 0;
    for dt in steps {
        let inc = (dt as i128) * (137 * SCALE as i128) * 731_250i128 / (SCALE as i128 * SCALE as i128);
        expected_x += inc;
        let (dx, _) = m.flush(dt);
        emitted_x += dx as i128;
    }
    assert_eq!(emitted_x * (SCALE as i128) + m.remainder_x_q as i128, expected_x);
    assert!(m.remainder_x_q.abs() < SCALE);
    assert!(m.remainder_y_q.abs() < SCALE);
}

#[test]
fn flush_at_rest_emits_nothing_and_keeps_remainder() {
    let mut m = integrator_at(100, SCALE, 0);
    // leave a half-unit remainder on x
    let (dx, dy) = m.flush(5000);
    assert_eq!((dx, dy), (0, 0));
    let rem_before = m.remainder_x_q;
    assert_eq!(rem_before, SCALE / 2);
    m.set_velocity(0, 0);
    for dt in [0u64, 1, 10_000, 3_600_000_000] {
        let (dx, dy) = m.flush(dt);
        assert_eq!((dx, dy), (0, 0));
        assert_eq!(m.remainder_x_q, rem_before);
        assert_eq!(m.remainder_y_q, 0);
    }
}

#[test]
fn negative_velocity_emits_negative_units() {
    let mut m = integrator_at(100, -SCALE, 0);
    let (dx1, _) = m.flush(5000);
    let (dx2, _) = m.flush(5000);
    assert_eq!(dx1 + dx2, -1);
    assert!(m.remainder_x_q > -SCALE && m.remainder_x_q <= 0);
}

#[test]
fn axes_flush_independently() {
    // x crosses a whole unit, y stays fractional
    let mut m = integrator_at(100, SCALE, 300_000);
    let (dx, dy) = m.flush(10_000);
    assert_eq!(dx, 1);
    assert_eq!(dy, 0);
    assert_eq!(m.remainder_x_q, 0);
    assert_eq!(m.remainder_y_q, 300_000);
}

#[test]
fn map_event_replaces_velocity_and_keeps_remainders() {
    let joystick = JoystickConfig::new(0, 50 * SCALE, 300 * SCALE, 0, SCALE).unwrap();
    let mouse = MouseConfig::new(100 * SCALE).unwrap();
    let mut vm = VMouseManager::new(&joystick, &mouse);
    vm.map_event(RawSample { axis: Axis::X, value: 300 });
    assert_eq!(vm.motion.velocity_x_q, SCALE);
    assert_eq!(vm.motion.velocity_y_q, 0);
    // a new sample replaces, never accumulates
    vm.map_event(RawSample { axis: Axis::X, value: 175 });
    assert_eq!(vm.motion.velocity_x_q, SCALE / 2);
    // an unrelated event changes nothing
    vm.map_event(RawSample { axis: Axis::Other, value: 12345 });
    assert_eq!(vm.motion.velocity_x_q, SCALE / 2);
    assert_eq!(vm.val_x, 175);
    // the counterpart axis keeps its last-seen sample through rotation
    vm.map_event(RawSample { axis: Axis::Y, value: -300 });
    assert_eq!(vm.motion.velocity_x_q, SCALE / 2);
    assert_eq!(vm.motion.velocity_y_q, -SCALE);
}

#[test]
fn send_event_emits_through_the_pipeline() {
    let joystick = JoystickConfig::new(0, 50 * SCALE, 300 * SCALE, 0, SCALE).unwrap();
    let mouse = MouseConfig::new(100 * SCALE).unwrap();
    let mut vm = VMouseManager::new(&joystick, &mouse);
    vm.map_event(RawSample { axis: Axis::X, value: 300 });
    let (dx, dy) = vm.send_event(10_000);
    assert_eq!((dx, dy), (1, 0));
}
