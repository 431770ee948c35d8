use mouse2joystick::config::{JoystickConfig, MouseConfig};
use mouse2joystick::event_loop::{DispatchOutcome, EventLoop, HotplugEvent, HOTPLUG_TOKEN};
use mouse2joystick::fixed::SCALE;
use mouse2joystick::sample::{ABS_X, EV_ABS};

use nix::fcntl::OFlag;
use nix::sys::stat::Mode;
use nix::unistd::{close, mkfifo, pipe2, unlink};

fn abs_x_record(value: i32) -> Vec<u8> {
    let mut b = vec![0u8; 24];
    b[16..18].copy_from_slice(&EV_ABS.to_le_bytes());
    b[18..20].copy_from_slice(&ABS_X.to_le_bytes());
    b[20..24].copy_from_slice(&value.to_le_bytes());
    b
}

fn poll_tokens(poll: &mut mio::Poll, timeout_ms: u64) -> Vec<usize> {
    let mut events = mio::Events::with_capacity(64);
    poll.poll(&mut events, Some(std::time::Duration::from_millis(timeout_ms))).unwrap();
    let mut tokens: Vec<usize> = events.iter().map(|e| e.token().0).collect();
    tokens.sort();
    tokens.dedup();
    tokens
}

fn fresh_loop() -> EventLoop {
    let joystick = JoystickConfig::new(0, 50 * SCALE, 300 * SCALE, 0, SCALE).unwrap();
    let mouse = MouseConfig::new(100 * SCALE).unwrap();
    EventLoop::new(&joystick, &mouse)
}

#[test]
fn end_to_end_hotplug_sample_flush_unplug() {
    let path = String::from("/tmp/m2j_e2e_fifo");
    let _ = unlink(path.as_str());
    mkfifo(path.as_str(), Mode::S_IRWXU).unwrap();

    let mut poll = mio::Poll::new().unwrap();
    let mut el = fresh_loop();

    // the added device lands on the pool's first token
    el.apply_hotplug_event(&mut poll, &HotplugEvent::Added(path.clone())).unwrap();
    assert_eq!(el.pool.len(), 1);
    assert!(el.pool.contains(1));

    // keep a spare reader so writes stay legal after the pool lets go
    let spare = nix::fcntl::open(path.as_str(), OFlag::O_RDONLY | OFlag::O_NONBLOCK, Mode::empty())
        .unwrap();
    let w = nix::fcntl::open(path.as_str(), OFlag::O_WRONLY, Mode::empty()).unwrap();

    // a raw ABS_X = 300 sample becomes full velocity on x
    nix::unistd::write(w, &abs_x_record(300)).unwrap();
    assert_eq!(poll_tokens(&mut poll, 500), vec![1]);
    let outcome = el.dispatch_token(&mut poll, 1).unwrap();
    assert_eq!(outcome, DispatchOutcome::Drained);
    assert_eq!(el.vmouse.motion.velocity_x_q, SCALE);

    // a 10 ms flush at speed 100 accumulates exactly one unit
    let (dx, dy) = el.vmouse.send_event(10_000);
    assert_eq!((dx, dy), (1, 0));

    // the removal empties the pool and silences the stale token
    el.apply_hotplug_event(&mut poll, &HotplugEvent::Removed(path.clone())).unwrap();
    assert_eq!(el.pool.len(), 0);
    assert!(!el.pool.contains(1));
    nix::unistd::write(w, &abs_x_record(100)).unwrap();
    assert_eq!(poll_tokens(&mut poll, 50), Vec::<usize>::new());

    close(w).unwrap();
    close(spare).unwrap();
    unlink(path.as_str()).unwrap();
}

#[test]
fn added_twice_registers_once() {
    let path = String::from("/tmp/m2j_dup_fifo");
    let _ = unlink(path.as_str());
    mkfifo(path.as_str(), Mode::S_IRWXU).unwrap();

    let mut poll = mio::Poll::new().unwrap();
    let mut el = fresh_loop();
    let events = vec![
        HotplugEvent::Added(path.clone()),
        HotplugEvent::Added(path.clone()),
        HotplugEvent::Removed(String::from("/tmp/m2j_never_seen")),
    ];
    el.apply_hotplug(&mut poll, &events).unwrap();
    assert_eq!(el.pool.len(), 1);
    unlink(path.as_str()).unwrap();
}

#[test]
fn added_unopenable_path_is_skipped() {
    let mut poll = mio::Poll::new().unwrap();
    let mut el = fresh_loop();
    let missing = String::from("/tmp/m2j_no_such_device");
    let _ = unlink(missing.as_str());
    el.apply_hotplug_event(&mut poll, &HotplugEvent::Added(missing)).unwrap();
    assert_eq!(el.pool.len(), 0);
}

#[test]
fn unknown_token_is_ignored() {
    let mut poll = mio::Poll::new().unwrap();
    let mut el = fresh_loop();
    let outcome = el.dispatch_token(&mut poll, 42).unwrap();
    assert_eq!(outcome, DispatchOutcome::Unknown);
}

#[test]
fn gone_device_is_removed_defensively() {
    // a device vanishing before its hot-plug notification: end of stream on
    // the descriptor removes it from the pool
    let mut poll = mio::Poll::new().unwrap();
    let mut el = fresh_loop();
    let (r, w) = pipe2(OFlag::O_NONBLOCK).unwrap();
    el.pool.insert(&mut poll, String::from("/dev/input/event7"), r).unwrap();
    close(w).unwrap();
    assert_eq!(poll_tokens(&mut poll, 500), vec![1]);
    let outcome = el.dispatch_token(&mut poll, 1).unwrap();
    assert_eq!(outcome, DispatchOutcome::Removed);
    assert_eq!(el.pool.len(), 0);
}

#[test]
fn run_once_at_rest_emits_nothing() {
    let mut poll = mio::Poll::new().unwrap();
    let mut el = fresh_loop();
    let report = el.run_once(&mut poll).unwrap();
    assert_eq!((report.dx, report.dy), (0, 0));
    assert!(!report.hotplug_ready);
}

#[test]
fn run_once_flags_the_hotplug_channel() {
    let mut poll = mio::Poll::new().unwrap();
    let mut el = fresh_loop();
    let (r, w) = pipe2(OFlag::O_NONBLOCK).unwrap();
    poll.registry()
        .register(
            &mut mio::unix::SourceFd(&r),
            mio::Token(HOTPLUG_TOKEN),
            mio::Interest::READABLE,
        )
        .unwrap();
    nix::unistd::write(w, &[1u8]).unwrap();
    let report = el.run_once(&mut poll).unwrap();
    assert!(report.hotplug_ready);
    assert_eq!((report.dx, report.dy), (0, 0));
    close(w).unwrap();
}

#[test]
fn run_once_drains_samples_and_moves() {
    let mut poll = mio::Poll::new().unwrap();
    let mut el = fresh_loop();
    let (r, w) = pipe2(OFlag::O_NONBLOCK).unwrap();
    el.pool.insert(&mut poll, String::from("/dev/input/event3"), r).unwrap();
    nix::unistd::write(w, &abs_x_record(300)).unwrap();
    let report = el.run_once(&mut poll).unwrap();
    assert!(!report.hotplug_ready);
    assert_eq!(el.vmouse.motion.velocity_x_q, SCALE);
    // dx depends on the wall clock; the velocity does not
    close(w).unwrap();
}
