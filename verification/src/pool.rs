//! The device pool: owns every live device and keeps the multiplexer's
//! registrations consistent with its own token space.  Tokens are positional
//! — the device at index `i` owns token `token_start + i` — so token validity
//! is a bounds check and removal is constant-time: the doomed slot is filled
//! by the last device, whose registration is rebound to the doomed token,
//! and the emptied last slot is deregistered.

use vstd::prelude::*;

use crate::mux::{mux_deregister, mux_register, mux_reregister, poll_regs};

verus! {

/// One live device as the pool tracks it: its identifying path and the open
/// non-blocking descriptor whose readiness the multiplexer reports.
#[derive(Debug)]
pub struct InputDevice {
    pub path: String,
    pub fd: i32,
}

/// Why a pool operation failed.  Each leaves the pact between pool and
/// multiplexer in doubt, so callers treat it as fatal.
#[derive(Clone, Copy, Debug, PartialEq, Eq, Structural)]
pub enum PoolError {
    /// The multiplexer refused to register, rebind or release a descriptor.
    Registration,
}

/// The set of live devices, addressed by dispatch tokens drawn contiguously
/// from `token_start`.
pub struct InputDevicePool {
    token_start: usize,
    devices: Vec<InputDevice>,
}

impl InputDevicePool {
    /// The paths of the live devices, in token order.
    pub closed spec fn paths(self) -> Seq<Seq<char>> {
        self.devices@.map(|i: int, d: InputDevice| d.path@)
    }

    /// The descriptors of the live devices, in token order.
    pub closed spec fn fds(self) -> Seq<int> {
        self.devices@.map(|i: int, d: InputDevice| d.fd as int)
    }

    /// First token of the pool's contiguous token range.
    pub closed spec fn start(self) -> int {
        self.token_start as int
    }

    /// No two live devices share a path or a descriptor, and the token range
    /// fits the machine.
    pub open spec fn wf(self) -> bool {
        &&& self.paths().len() == self.fds().len()
        &&& forall|i: int, j: int|
            0 <= i < j < self.paths().len() ==> self.paths()[i] != self.paths()[j]
        &&& forall|i: int, j: int| 0 <= i < j < self.fds().len() ==> self.fds()[i] != self.fds()[j]
        &&& self.start() + self.paths().len() <= usize::MAX
    }

    pub open spec fn has_path(self, p: Seq<char>) -> bool {
        exists|i: int| 0 <= i < self.paths().len() && self.paths()[i] == p
    }

    pub open spec fn has_fd(self, fd: int) -> bool {
        exists|i: int| 0 <= i < self.fds().len() && self.fds()[i] == fd
    }

    /// The unique position of a present path.
    pub open spec fn index_of(self, p: Seq<char>) -> int {
        choose|i: int| 0 <= i < self.paths().len() && self.paths()[i] == p
    }

    /// A token is valid exactly while a device occupies its slot.
    pub open spec fn token_in_range(self, t: int) -> bool {
        self.start() <= t < self.start() + self.paths().len()
    }

    /// The pool's pact with the multiplexer: every live descriptor is
    /// registered under exactly its positional token.
    pub open spec fn consistent(self, regs: Map<int, int>) -> bool {
        forall|i: int|
            0 <= i < self.fds().len() ==> regs.contains_key(#[trigger] self.fds()[i])
                && regs[self.fds()[i]] == self.start() + i
    }

    /// An empty pool whose tokens will start at `token_start`.
    pub fn new(token_start: usize) -> (r: InputDevicePool)
        ensures
            r.wf(),
            r.paths() == Seq::<Seq<char>>::empty(),
            r.fds() == Seq::<int>::empty(),
            r.start() == token_start as int,
    {
        let pool = InputDevicePool { token_start, devices: Vec::new() };
        proof {
            assert(pool.paths() =~= Seq::<Seq<char>>::empty());
            assert(pool.fds() =~= Seq::<int>::empty());
        }
        pool
    }

    /// How many devices are live.
    pub fn len(&self) -> (r: usize)
        ensures
            r == self.paths().len(),
    {
        self.devices.len()
    }

    /// Whether readiness under this token belongs to a live device.
    pub fn contains(&self, token: usize) -> (r: bool)
        ensures
            r == self.token_in_range(token as int),
    {
        token >= self.token_start && token - self.token_start < self.devices.len()
    }

    /// The device a valid token dispatches to.
    pub fn get(&self, token: usize) -> (r: Option<&InputDevice>)
        ensures
            match r {
                Some(d) => self.token_in_range(token as int) && d.path@ == self.paths()[token
                    - self.start()] && d.fd as int == self.fds()[token - self.start()],
                None => !self.token_in_range(token as int),
            },
    {
        if token < self.token_start {
            return None;
        }
        let index = token - self.token_start;
        if index < self.devices.len() {
            Some(&self.devices[index])
        } else {
            None
        }
    }

    /// The index (and so the token offset) of the device opened from this
    /// path, if any.
    pub fn find_path(&self, path: &String) -> (r: Option<usize>)
        ensures
            match r {
                Some(i) => i < self.paths().len() && self.paths()[i as int] == path@,
                None => !self.has_path(path@),
            },
    {
        let end = self.devices.len();
        let mut i: usize = 0;
        while i < end
            invariant
                i <= end,
                end == self.paths().len(),
                forall|j: int| 0 <= j < i ==> self.paths()[j] != path@,
            decreases end - i,
        {
            if self.devices[i].path == *path {
                return Some(i);
            }
            i = i + 1;
        }
        None
    }

    /// Registers a device under the next free token and appends it.  A path
    /// or descriptor already present means discovery and hot-plug raced over
    /// the same device: the call is a no-op, not an error.  A multiplexer
    /// refusal leaves the pool untouched and is fatal to the caller.
    pub fn insert(&mut self, poll: &mut mio::Poll, path: String, fd: i32) -> (r: Result<
        bool,
        PoolError,
    >)
        requires
            old(self).wf(),
            old(self).consistent(poll_regs(*old(poll))),
            old(self).start() + old(self).paths().len() < usize::MAX,
        ensures
            final(self).start() == old(self).start(),
            match r {
                Ok(inserted) => {
                    &&& inserted == (!old(self).has_path(path@) && !old(self).has_fd(fd as int))
                    &&& final(self).wf()
                    &&& final(self).consistent(poll_regs(*final(poll)))
                    &&& if inserted {
                        &&& final(self).paths() == old(self).paths().push(path@)
                        &&& final(self).fds() == old(self).fds().push(fd as int)
                        &&& poll_regs(*final(poll)) == poll_regs(*old(poll)).insert(
                            fd as int,
                            old(self).start() + old(self).paths().len(),
                        )
                    } else {
                        &&& *final(self) == *old(self)
                        &&& poll_regs(*final(poll)) == poll_regs(*old(poll))
                    }
                },
                Err(_) => *final(self) == *old(self) && !old(self).has_path(path@) && !old(
                    self,
                ).has_fd(fd as int),
            },
    {
        if let Some(_) = self.find_path(&path) {
            return Ok(false);
        }
        if self.holds_fd(fd) {
            return Ok(false);
        }
        let token = self.token_start + self.devices.len();
        let ghost pre = *self;
        let ghost regs0 = poll_regs(*poll);
        match mux_register(poll, fd, token) {
            Ok(()) => {
                self.devices.push(InputDevice { path, fd });
                proof {
                    assert(self.paths() =~= pre.paths().push(path@));
                    assert(self.fds() =~= pre.fds().push(fd as int));
                    let regs1 = poll_regs(*poll);
                    assert forall|i: int| 0 <= i < self.fds().len() implies #[trigger] regs1.contains_key(
                        self.fds()[i],
                    ) && regs1[self.fds()[i]] == self.start() + i by {
                        if i < pre.fds().len() {
                            assert(self.fds()[i] == pre.fds()[i]);
                            assert(regs0.contains_key(pre.fds()[i]) && regs0[pre.fds()[i]]
                                == pre.start() + i);
                            assert(pre.fds()[i] != fd as int);
                        } else {
                            assert(self.fds()[i] == fd as int);
                        }
                    }
                }
                Ok(true)
            },
            Err(_) => Err(PoolError::Registration),
        }
    }

    /// Opens the path (read-only, non-blocking) and registers the device.
    /// A path already live is a no-op without touching the descriptor
    /// space; a failed open is skipped, not an error — the device may have
    /// vanished between notification and open.
    pub fn insert_from_path(&mut self, poll: &mut mio::Poll, path: String) -> (r: Result<
        bool,
        PoolError,
    >)
        requires
            old(self).wf(),
            old(self).consistent(poll_regs(*old(poll))),
            old(self).start() + old(self).paths().len() < usize::MAX,
        ensures
            final(self).start() == old(self).start(),
            old(self).has_path(path@) ==> r == Ok::<bool, PoolError>(false),
            match r {
                Ok(inserted) => {
                    &&& final(self).wf()
                    &&& final(self).consistent(poll_regs(*final(poll)))
                    &&& inserted ==> !old(self).has_path(path@) && final(self).paths() == old(
                        self,
                    ).paths().push(path@) && final(self).has_path(path@)
                    &&& !inserted ==> *final(self) == *old(self)
                },
                Err(_) => *final(self) == *old(self),
            },
    {
        if let Some(_) = self.find_path(&path) {
            return Ok(false);
        }
        match crate::devio::open_device(&path) {
            Some(fd) => {
                let ghost pv = path@;
                match self.insert(poll, path, fd) {
                    Ok(true) => {
                        proof {
                            assert(self.paths()[self.paths().len() - 1] == pv);
                        }
                        Ok(true)
                    },
                    Ok(false) => {
                        crate::devio::close_device(fd);
                        Ok(false)
                    },
                    Err(e) => {
                        crate::devio::close_device(fd);
                        Err(e)
                    },
                }
            },
            None => Ok(false),
        }
    }

    /// Whether some live device already uses this descriptor.
    fn holds_fd(&self, fd: i32) -> (r: bool)
        ensures
            r == self.has_fd(fd as int),
    {
        let end = self.devices.len();
        let mut i: usize = 0;
        while i < end
            invariant
                i <= end,
                end == self.fds().len(),
                forall|j: int| 0 <= j < i ==> self.fds()[j] != fd as int,
            decreases end - i,
        {
            if self.devices[i].fd == fd {
                assert(self.fds()[i as int] == fd as int);
                return true;
            }
            i = i + 1;
        }
        false
    }

    /// Removes the device opened from this path; an absent path is a no-op,
    /// not an error, so removing the same path twice is harmless.  Either
    /// way the path is gone afterwards.
    pub fn delete_from_path(&mut self, poll: &mut mio::Poll, path: &String) -> (r: Result<
        bool,
        PoolError,
    >)
        requires
            old(self).wf(),
            old(self).consistent(poll_regs(*old(poll))),
        ensures
            final(self).start() == old(self).start(),
            !old(self).has_path(path@) ==> r == Ok::<bool, PoolError>(false),
            match r {
                Ok(removed) => {
                    &&& removed == old(self).has_path(path@)
                    &&& final(self).wf()
                    &&& final(self).consistent(poll_regs(*final(poll)))
                    &&& !final(self).has_path(path@)
                    &&& if removed {
                        let i = old(self).index_of(path@);
                        &&& final(self).paths() == old(self).paths().update(
                            i,
                            old(self).paths().last(),
                        ).drop_last()
                        &&& final(self).fds() == old(self).fds().update(
                            i,
                            old(self).fds().last(),
                        ).drop_last()
                    } else {
                        &&& *final(self) == *old(self)
                        &&& poll_regs(*final(poll)) == poll_regs(*old(poll))
                    }
                },
                Err(_) => final(self).wf() && final(self).paths().len() <= old(
                    self,
                ).paths().len(),
            },
    {
        match self.find_path(path) {
            Some(index) => {
                proof {
                    lemma_unique_index(old(self).paths(), path@, index as int);
                    assert(old(self).index_of(path@) == index as int);
                }
                match self.delete(poll, index) {
                    Ok(()) => {
                        proof {
                            let i = index as int;
                            let pre = old(self).paths();
                            let post = self.paths();
                            assert forall|j: int| 0 <= j < post.len() implies post[j]
                                != path@ by {
                                assert(pre[if j == i {
                                    pre.len() - 1
                                } else {
                                    j
                                }] == post[j]);
                            }
                        }
                        Ok(true)
                    },
                    Err(e) => Err(e),
                }
            },
            None => Ok(false),
        }
    }

    /// Removes the device a valid token dispatches to.  An out-of-range
    /// token is a programming fault, excluded by contract rather than
    /// tolerated: the pool never exposes partial state.
    pub fn delete_from_token(&mut self, poll: &mut mio::Poll, token: usize) -> (r: Result<
        (),
        PoolError,
    >)
        requires
            old(self).wf(),
            old(self).consistent(poll_regs(*old(poll))),
            old(self).token_in_range(token as int),
        ensures
            final(self).start() == old(self).start(),
            match r {
                Ok(()) => {
                    let i = token - old(self).start();
                    &&& final(self).wf()
                    &&& final(self).consistent(poll_regs(*final(poll)))
                    &&& final(self).paths() == old(self).paths().update(
                        i,
                        old(self).paths().last(),
                    ).drop_last()
                    &&& final(self).fds() == old(self).fds().update(
                        i,
                        old(self).fds().last(),
                    ).drop_last()
                },
                Err(_) => final(self).wf() && final(self).paths().len() <= old(
                    self,
                ).paths().len(),
            },
    {
        let index = token - self.token_start;
        self.delete(poll, index)
    }

    /// Constant-time removal at an index: the last device is swapped into
    /// the doomed slot and rebound to its token, then the emptied last slot
    /// is popped and deregistered.  The rebinding is mandatory — tokens are
    /// positional, and the multiplexer delivers readiness by token.
    fn delete(&mut self, poll: &mut mio::Poll, index: usize) -> (r: Result<(), PoolError>)
        requires
            old(self).wf(),
            old(self).consistent(poll_regs(*old(poll))),
            index < old(self).paths().len(),
        ensures
            final(self).start() == old(self).start(),
            match r {
                Ok(()) => {
                    &&& final(self).wf()
                    &&& final(self).consistent(poll_regs(*final(poll)))
                    &&& final(self).paths() == old(self).paths().update(
                        index as int,
                        old(self).paths().last(),
                    ).drop_last()
                    &&& final(self).fds() == old(self).fds().update(
                        index as int,
                        old(self).fds().last(),
                    ).drop_last()
                },
                Err(_) => final(self).wf() && final(self).paths().len() <= old(
                    self,
                ).paths().len(),
            },
    {
        let ghost pre = *self;
        let ghost regs0 = poll_regs(*poll);
        let last_index = self.devices.len() - 1;
        if index != last_index {
            let moved_fd = self.devices[last_index].fd;
            let token = self.token_start + index;
            match mux_reregister(poll, moved_fd, token) {
                Ok(()) => (),
                Err(_) => {
                    return Err(PoolError::Registration);
                },
            }
        }
        let removed = self.devices.swap_remove(index);
        proof {
            assert(self.paths() =~= pre.paths().update(
                index as int,
                pre.paths().last(),
            ).drop_last());
            assert(self.fds() =~= pre.fds().update(index as int, pre.fds().last()).drop_last());
            lemma_swap_remove_distinct(pre.paths(), index as int);
            lemma_swap_remove_distinct(pre.fds(), index as int);
        }
        let outcome = mux_deregister(poll, removed.fd);
        crate::devio::close_device(removed.fd);
        match outcome {
            Ok(()) => {
                proof {
                    let n = pre.fds().len();
                    let rid = pre.fds()[index as int];
                    let regs1 = poll_regs(*poll);
                    assert forall|i: int| 0 <= i < self.fds().len() implies #[trigger] regs1.contains_key(
                        self.fds()[i],
                    ) && regs1[self.fds()[i]] == self.start() + i by {
                        let f = self.fds()[i];
                        if index as int == n - 1 {
                            assert(f == pre.fds()[i]);
                            assert(regs0.contains_key(pre.fds()[i]) && regs0[pre.fds()[i]]
                                == pre.start() + i);
                            assert(pre.fds()[i] != pre.fds()[index as int]);
                        } else if i == index as int {
                            assert(f == pre.fds()[n - 1]);
                            assert(pre.fds()[n - 1] != pre.fds()[index as int]);
                        } else {
                            assert(f == pre.fds()[i]);
                            assert(regs0.contains_key(pre.fds()[i]) && regs0[pre.fds()[i]]
                                == pre.start() + i);
                            assert(pre.fds()[i] != pre.fds()[index as int]);
                            assert(pre.fds()[i] != pre.fds()[n - 1]);
                        }
                    }
                }
                Ok(())
            },
            Err(_) => Err(PoolError::Registration),
        }
    }
}

/// Law: removing any single device by path leaves every other device still
/// dispatchable under some valid token, and the tokens in use afterwards are
/// exactly the contiguous range `[start, start + N - 1)` — no gaps, however
/// the removal reshuffled the slots.  `after` is related to `before` as
/// `delete_from_path` promises.
pub proof fn lemma_remove_keeps_others(
    before: InputDevicePool,
    after: InputDevicePool,
    p: Seq<char>,
)
    requires
        before.wf(),
        before.has_path(p),
        after.start() == before.start(),
        after.paths() == before.paths().update(
            before.index_of(p),
            before.paths().last(),
        ).drop_last(),
    ensures
        after.paths().len() + 1 == before.paths().len(),
        forall|j: int|
            0 <= j < before.paths().len() && before.paths()[j] != p ==> exists|t: int|
                after.token_in_range(t) && after.paths()[t - after.start()]
                    == #[trigger] before.paths()[j],
        forall|t: int|
            after.token_in_range(t) <==> after.start() <= t < after.start()
                + before.paths().len() - 1,
{
    let k = before.index_of(p);
    let n = before.paths().len() as int;
    assert(0 <= k < n && before.paths()[k] == p);
    assert forall|j: int| 0 <= j < n && before.paths()[j] != p implies exists|t: int|
        after.token_in_range(t) && after.paths()[t - after.start()]
            == #[trigger] before.paths()[j] by {
        if j == n - 1 {
            let t = after.start() + k;
            assert(after.paths()[t - after.start()] == before.paths()[j]);
            assert(after.token_in_range(t));
        } else {
            let t = after.start() + j;
            assert(after.paths()[t - after.start()] == before.paths()[j]);
            assert(after.token_in_range(t));
        }
    }
}

/// In a duplicate-free sequence an element sits at exactly one index, so
/// `choose` picks the index where it was found.
proof fn lemma_unique_index(s: Seq<Seq<char>>, p: Seq<char>, i: int)
    requires
        0 <= i < s.len(),
        s[i] == p,
        forall|a: int, b: int| 0 <= a < b < s.len() ==> s[a] != s[b],
    ensures
        (choose|j: int| 0 <= j < s.len() && s[j] == p) == i,
{
    let j = choose|j: int| 0 <= j < s.len() && s[j] == p;
    assert(0 <= j < s.len() && s[j] == p);
    if j != i {
        if j < i {
            assert(s[j] != s[i]);
        } else {
            assert(s[i] != s[j]);
        }
    }
}

/// Swap-removal keeps a duplicate-free sequence duplicate-free.
proof fn lemma_swap_remove_distinct<T>(s: Seq<T>, index: int)
    requires
        0 <= index < s.len(),
        forall|a: int, b: int| 0 <= a < b < s.len() ==> s[a] != s[b],
    ensures
        forall|a: int, b: int|
            0 <= a < b < s.update(index, s.last()).drop_last().len() ==> s.update(
                index,
                s.last(),
            ).drop_last()[a] != s.update(index, s.last()).drop_last()[b],
{
    let t = s.update(index, s.last()).drop_last();
    assert forall|a: int, b: int| 0 <= a < b < t.len() implies t[a] != t[b] by {
        let sa = if a == index {
            s.len() - 1
        } else {
            a
        };
        let sb = if b == index {
            s.len() - 1
        } else {
            b
        };
        assert(t[a] == s[sa] && t[b] == s[sb]);
        if sa < sb {
            assert(s[sa] != s[sb]);
        } else {
            assert(s[sb] != s[sa]);
        }
    }
}

} // verus!
