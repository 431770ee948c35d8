//! Device descriptors and the monotonic clock, taken on trust from nix and
//! std.  Everything a device hands over arrives as plain bytes; what those
//! bytes say is decided by verified code.

use vstd::prelude::*;

verus! {

/// How one non-blocking read from a device ended.
#[derive(Clone, Copy, Debug, PartialEq, Eq, Structural)]
pub enum ReadOutcome {
    /// So many bytes now fill the front of the buffer.
    Data(usize),
    /// Nothing available right now; the device stays registered.
    WouldBlock,
    /// The device no longer exists; the caller removes it from the pool.
    Gone,
    /// Some other failure; the sample is dropped, the device stays.
    Failed,
}

/// Relies on nix's `unistd::read`: fills a prefix of `buf` with whatever the
/// descriptor currently has.  What arrives depends on the device, so only
/// the count is promised: it never exceeds the buffer, and the buffer keeps
/// its length.  Would-block, a vanished device and other failures are told
/// apart for the caller.
#[verifier::external_body]
pub(crate) fn read_chunk(fd: i32, buf: &mut Vec<u8>) -> (r: ReadOutcome)
    ensures
        final(buf)@.len() == old(buf)@.len(),
        r matches ReadOutcome::Data(n) ==> n <= old(buf)@.len(),
{
    match nix::unistd::read(fd, buf.as_mut_slice()) {
        Ok(n) => ReadOutcome::Data(n),
        Err(nix::errno::Errno::EAGAIN) => ReadOutcome::WouldBlock,
        Err(nix::errno::Errno::ENODEV) => ReadOutcome::Gone,
        Err(_) => ReadOutcome::Failed,
    }
}

/// Relies on nix's `fcntl::open`: opens the path read-only and non-blocking.
/// POSIX promises a nonnegative descriptor on success; whether it succeeds
/// depends on what is at the path, so no more is said.
#[verifier::external_body]
pub(crate) fn open_device(path: &String) -> (r: Option<i32>)
    ensures
        r matches Some(fd) ==> fd >= 0,
{
    match nix::fcntl::open(
        path.as_str(),
        nix::fcntl::OFlag::O_RDONLY | nix::fcntl::OFlag::O_NONBLOCK,
        nix::sys::stat::Mode::empty(),
    ) {
        Ok(fd) => Some(fd),
        Err(_) => None,
    }
}

/// Relies on nix's `unistd::close`.  The descriptor is surrendered either
/// way, so the outcome is dropped.
#[verifier::external_body]
pub(crate) fn close_device(fd: i32) {
    let _ = nix::unistd::close(fd);
}

/// std's monotonic clock reading, opaque to verification.
#[verifier::external_type_specification]
#[verifier::external_body]
pub struct ExInstant(std::time::Instant);

/// Relies on std's `Instant::now`: a reading of the monotonic clock.
#[verifier::external_body]
pub(crate) fn monotonic_now() -> std::time::Instant {
    std::time::Instant::now()
}

/// Relies on std's `Instant::saturating_duration_since`: the microseconds
/// from `earlier` to `later`, zero if the clock has not advanced.  The value
/// depends on the clock, so nothing is promised of it.
#[verifier::external_body]
pub(crate) fn micros_between(earlier: &std::time::Instant, later: &std::time::Instant) -> u64 {
    u64::try_from(later.saturating_duration_since(*earlier).as_micros()).unwrap_or(u64::MAX)
}

} // verus!
