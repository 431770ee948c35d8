//! The readiness multiplexer, taken on trust from mio.  The library tracks
//! one abstraction of it: the map from registered file descriptor to the
//! token readiness will be reported under.  Registering, rebinding and
//! releasing descriptors update that map; waiting never does.

use vstd::prelude::*;

verus! {

/// std's I/O error, opaque to verification: the registration wrappers hand
/// it through and the pool maps it to its own error.
#[verifier::external_type_specification]
#[verifier::external_body]
pub struct ExIoError(std::io::Error);

/// mio's poll handle, opaque to verification.
#[verifier::external_type_specification]
#[verifier::external_body]
pub struct ExPoll(mio::Poll);

/// The registrations a multiplexer currently holds: file descriptor to the
/// token its readiness is delivered under.
pub uninterp spec fn poll_regs(p: mio::Poll) -> Map<int, int>;

/// How a bounded wait for readiness ended without events.
#[derive(Clone, Copy, Debug, PartialEq, Eq, Structural)]
pub enum WaitError {
    /// The wait was interrupted by a signal; harmless, treated as an empty
    /// round.
    Interrupted,
    /// The multiplexer itself failed; fatal.
    Failed,
}

/// Relies on mio's `Registry::register` on a raw unix descriptor source: on
/// success the descriptor's readiness is thereafter delivered under the
/// given token, for both read and write interest.
#[verifier::external_body]
pub(crate) fn mux_register(poll: &mut mio::Poll, fd: i32, token: usize) -> (r: Result<
    (),
    std::io::Error,
>)
    ensures
        r is Ok ==> poll_regs(*final(poll)) == poll_regs(*old(poll)).insert(
            fd as int,
            token as int,
        ),
{
    poll.registry().register(
        &mut mio::unix::SourceFd(&fd),
        mio::Token(token),
        mio::Interest::READABLE | mio::Interest::WRITABLE,
    )
}

/// Relies on mio's `Registry::reregister`: on success an already registered
/// descriptor is rebound to the given token.
#[verifier::external_body]
pub(crate) fn mux_reregister(poll: &mut mio::Poll, fd: i32, token: usize) -> (r: Result<
    (),
    std::io::Error,
>)
    ensures
        r is Ok ==> poll_regs(*final(poll)) == poll_regs(*old(poll)).insert(
            fd as int,
            token as int,
        ),
{
    poll.registry().reregister(
        &mut mio::unix::SourceFd(&fd),
        mio::Token(token),
        mio::Interest::READABLE | mio::Interest::WRITABLE,
    )
}

/// Relies on mio's `Registry::deregister`: on success the descriptor's
/// registration is gone and no further readiness is delivered for it.
#[verifier::external_body]
pub(crate) fn mux_deregister(poll: &mut mio::Poll, fd: i32) -> (r: Result<(), std::io::Error>)
    ensures
        r is Ok ==> poll_regs(*final(poll)) == poll_regs(*old(poll)).remove(fd as int),
{
    poll.registry().deregister(&mut mio::unix::SourceFd(&fd))
}

/// Relies on mio's `Poll::poll`: waits at most `timeout_ms` milliseconds and
/// hands back the tokens of whatever readiness events were delivered.  Which
/// tokens fire, if any, depends on the outside world, so nothing is promised
/// of them; waiting leaves the registrations as they were.  An interrupted
/// wait is told apart so the caller can treat it as an empty round.
#[verifier::external_body]
pub(crate) fn poll_collect(poll: &mut mio::Poll, timeout_ms: u64) -> (r: Result<
    Vec<usize>,
    WaitError,
>)
    ensures
        poll_regs(*final(poll)) == poll_regs(*old(poll)),
{
    let mut events = mio::Events::with_capacity(1024);
    match poll.poll(&mut events, Some(std::time::Duration::from_millis(timeout_ms))) {
        Ok(()) => Ok(events.iter().map(|e| e.token().0).collect()),
        Err(e) if e.kind() == std::io::ErrorKind::Interrupted => Err(WaitError::Interrupted),
        Err(_) => Err(WaitError::Failed),
    }
}

} // verus!
