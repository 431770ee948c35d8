use mouse2joystick::pool::InputDevicePool;

use nix::fcntl::OFlag;
use nix::unistd::{close, pipe2};

fn new_pipe() -> (i32, i32) {
    pipe2(OFlag::O_NONBLOCK).unwrap()
}

fn poll_tokens(poll: &mut mio::Poll) -> Vec<usize> {
    let mut events = mio::Events::with_capacity(64);
    poll.poll(&mut events, Some(std::time::Duration::from_millis(200))).unwrap();
    let mut tokens: Vec<usize> = events.iter().map(|e| e.token().0).collect();
    tokens.sort();
    tokens.dedup();
    tokens
}

#[test]
fn insert_assigns_contiguous_tokens() {
    let mut poll = mio::Poll::new().unwrap();
    let mut pool = InputDevicePool::new(1);
    let (r0, _w0) = new_pipe();
    let (r1, _w1) = new_pipe();
    let (r2, _w2) = new_pipe();
    assert!(pool.insert(&mut poll, String::from("/dev/input/event0"), r0).unwrap());
    assert!(pool.insert(&mut poll, String::from("/dev/input/event1"), r1).unwrap());
    assert!(pool.insert(&mut poll, String::from("/dev/input/event2"), r2).unwrap());
    assert_eq!(pool.len(), 3);
    assert!(!pool.contains(0));
    assert!(pool.contains(1) && pool.contains(2) && pool.contains(3));
    assert!(!pool.contains(4));
    assert_eq!(pool.get(1).unwrap().fd, r0);
    assert_eq!(pool.get(3).unwrap().fd, r2);
    assert_eq!(pool.find_path(&String::from("/dev/input/event1")), Some(1));
}

#[test]
fn insert_rejects_duplicate_path_as_no_op() {
    let mut poll = mio::Poll::new().unwrap();
    let mut pool = InputDevicePool::new(1);
    let (r0, _w0) = new_pipe();
    let (r1, _w1) = new_pipe();
    assert!(pool.insert(&mut poll, String::from("/dev/input/event0"), r0).unwrap());
    let again = pool.insert(&mut poll, String::from("/dev/input/event0"), r1).unwrap();
    assert!(!again);
    assert_eq!(pool.len(), 1);
    close(r1).unwrap();
}

#[test]
fn insert_rejects_duplicate_descriptor_as_no_op() {
    let mut poll = mio::Poll::new().unwrap();
    let mut pool = InputDevicePool::new(1);
    let (r0, _w0) = new_pipe();
    assert!(pool.insert(&mut poll, String::from("/dev/input/event0"), r0).unwrap());
    let again = pool.insert(&mut poll, String::from("/dev/input/event1"), r0).unwrap();
    assert!(!again);
    assert_eq!(pool.len(), 1);
    assert!(pool.find_path(&String::from("/dev/input/event1")).is_none());
}

#[test]
fn remove_by_path_keeps_others_dispatchable() {
    // three devices, remove the first: the remaining two still answer under
    // the contiguous tokens {1, 2}, and the relocated device's readiness is
    // rebound to the freed token
    let mut poll = mio::Poll::new().unwrap();
    let mut pool = InputDevicePool::new(1);
    let (r0, _w0) = new_pipe();
    let (r1, w1) = new_pipe();
    let (r2, w2) = new_pipe();
    pool.insert(&mut poll, String::from("/dev/input/event0"), r0).unwrap();
    pool.insert(&mut poll, String::from("/dev/input/event1"), r1).unwrap();
    pool.insert(&mut poll, String::from("/dev/input/event2"), r2).unwrap();

    let removed = pool.delete_from_path(&mut poll, &String::from("/dev/input/event0")).unwrap();
    assert!(removed);
    assert_eq!(pool.len(), 2);
    assert!(pool.contains(1) && pool.contains(2));
    assert!(!pool.contains(3));
    assert!(pool.find_path(&String::from("/dev/input/event0")).is_none());
    assert!(pool.find_path(&String::from("/dev/input/event1")).is_some());
    assert!(pool.find_path(&String::from("/dev/input/event2")).is_some());

    // the last device was swapped into slot 0, so it now owns token 1
    assert_eq!(pool.get(1).unwrap().fd, r2);
    assert_eq!(pool.get(2).unwrap().fd, r1);

    // and the multiplexer delivers its readiness under the rebound token
    nix::unistd::write(w2, &[7u8]).unwrap();
    assert_eq!(poll_tokens(&mut poll), vec![1]);
    nix::unistd::write(w1, &[7u8]).unwrap();
    assert_eq!(poll_tokens(&mut poll), vec![2]);
}

#[test]
fn remove_last_slot_needs_no_rebind() {
    let mut poll = mio::Poll::new().unwrap();
    let mut pool = InputDevicePool::new(1);
    let (r0, w0) = new_pipe();
    let (r1, _w1) = new_pipe();
    pool.insert(&mut poll, String::from("/dev/input/event0"), r0).unwrap();
    pool.insert(&mut poll, String::from("/dev/input/event1"), r1).unwrap();
    let removed = pool.delete_from_path(&mut poll, &String::from("/dev/input/event1")).unwrap();
    assert!(removed);
    assert_eq!(pool.len(), 1);
    assert_eq!(pool.get(1).unwrap().fd, r0);
    nix::unistd::write(w0, &[7u8]).unwrap();
    assert_eq!(poll_tokens(&mut poll), vec![1]);
}

#[test]
fn remove_same_path_twice_is_idempotent() {
    let mut poll = mio::Poll::new().unwrap();
    let mut pool = InputDevicePool::new(1);
    let (r0, _w0) = new_pipe();
    pool.insert(&mut poll, String::from("/dev/input/event0"), r0).unwrap();
    let first = pool.delete_from_path(&mut poll, &String::from("/dev/input/event0"));
    assert_eq!(first.unwrap(), true);
    let second = pool.delete_from_path(&mut poll, &String::from("/dev/input/event0"));
    assert_eq!(second.unwrap(), false);
    assert_eq!(pool.len(), 0);
}

#[test]
fn remove_unknown_path_is_no_op() {
    let mut poll = mio::Poll::new().unwrap();
    let mut pool = InputDevicePool::new(1);
    let r = pool.delete_from_path(&mut poll, &String::from("/dev/input/event9"));
    assert_eq!(r.unwrap(), false);
}

#[test]
fn delete_from_token_removes_that_slot() {
    let mut poll = mio::Poll::new().unwrap();
    let mut pool = InputDevicePool::new(1);
    let (r0, _w0) = new_pipe();
    let (r1, _w1) = new_pipe();
    pool.insert(&mut poll, String::from("/dev/input/event0"), r0).unwrap();
    pool.insert(&mut poll, String::from("/dev/input/event1"), r1).unwrap();
    pool.delete_from_token(&mut poll, 1).unwrap();
    assert_eq!(pool.len(), 1);
    assert_eq!(pool.get(1).unwrap().fd, r1);
    assert!(pool.find_path(&String::from("/dev/input/event0")).is_none());
}

#[test]
fn tokens_are_reassigned_after_removal() {
    let mut poll = mio::Poll::new().unwrap();
    let mut pool = InputDevicePool::new(5);
    let (r0, _w0) = new_pipe();
    let (r1, _w1) = new_pipe();
    pool.insert(&mut poll, String::from("/dev/input/event0"), r0).unwrap();
    pool.delete_from_token(&mut poll, 5).unwrap();
    assert!(!pool.contains(5));
    pool.insert(&mut poll, String::from("/dev/input/event1"), r1).unwrap();
    assert!(pool.contains(5));
    assert_eq!(pool.get(5).unwrap().fd, r1);
}
