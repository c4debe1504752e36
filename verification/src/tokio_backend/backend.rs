//! The backend implementing the reactor's pluggable-poller contract:
//! add, delete, dispatch and deallocate, over the two registration maps
//! and a shared dispatch notification.

use vstd::prelude::*;

use crate::base::Base;
use crate::base::Span;
use crate::base::EV_READ;
use crate::base::EV_WRITE;
use crate::base::spec_mark_io;
use crate::tokio_backend::io::IoMap;
use crate::tokio_backend::io::IoType;
use crate::tokio_backend::io::spec_bump;
use crate::tokio_backend::io::spec_can_drop;
use crate::tokio_backend::io::spec_drop;
use crate::tokio_backend::io::spec_initial_entry;
use crate::tokio_backend::signal::SigEntry;
use crate::tokio_backend::signal::SignalMap;

verus! {

/// How the dispatch cycle waits, decided by the timeout argument.
#[derive(Clone, Copy, Debug, PartialEq, Eq, Structural)]
pub enum WaitKind {
    /// A zero timeout: give the scheduler one tick, never wait.
    Yield,
    /// A positive timeout: wait for a notification at most this long.
    Timed(Span),
    /// No timeout: wait for a notification with no bound.
    Forever,
}

/// The wait a timeout argument asks for.
pub open spec fn spec_wait_kind(timeout: Option<Span>) -> WaitKind {
    match timeout {
        Some(d) => if d.secs == 0 && d.micros == 0 {
            WaitKind::Yield
        } else {
            WaitKind::Timed(d)
        },
        None => WaitKind::Forever,
    }
}

/// Classifies a dispatch timeout into the wait it asks for.
pub fn wait_kind(timeout: Option<Span>) -> (r: WaitKind)
    ensures
        r == spec_wait_kind(timeout),
{
    match timeout {
        Some(d) => if d.is_zero() {
            WaitKind::Yield
        } else {
            WaitKind::Timed(d)
        },
        None => WaitKind::Forever,
    }
}

/// Why one dispatch call returned.
#[derive(Clone, Copy, Debug, PartialEq, Eq, Structural)]
pub enum DispatchOutcome {
    /// A readiness task signalled the dispatch notifier.
    Notified,
    /// The timeout elapsed first; that is not an error.
    TimedOut,
    /// The zero-timeout tick completed.
    Yielded,
}

/// The backend state: the two registration maps, the level-triggered
/// dispatch notification the readiness tasks share, and the record of
/// watcher tasks joined so far.
pub struct TokioBackend {
    /// Registrations per watched descriptor.
    pub io_map: IoMap,
    /// Registrations per listened signal number.
    pub signal_map: SignalMap,
    /// Whether a readiness notification is pending for the dispatcher.
    pub dispatch_pending: bool,
    /// Descriptor watcher tasks joined so far, in join order.
    pub joined_io: Vec<u64>,
    /// Signal listener tasks joined so far, in join order.
    pub joined_signal: Vec<u64>,
}

impl TokioBackend {
    /// Both registration maps keep their invariants.
    pub open spec fn wf(self) -> bool {
        &&& self.io_map.wf()
        &&& self.signal_map.wf()
    }

    /// A fresh backend with nothing registered, nothing pending and
    /// nothing joined.
    pub fn new() -> (r: Self)
        ensures
            r.io_map.entries() == Map::<i32, crate::tokio_backend::io::IoEntry>::empty(),
            r.signal_map.entries() == Map::<i32, SigEntry>::empty(),
            !r.dispatch_pending,
            r.joined_io@ == Seq::<u64>::empty(),
            r.joined_signal@ == Seq::<u64>::empty(),
            r.io_map.fresh_task() == 0u64,
            r.signal_map.fresh_task() == 0u64,
            r.wf(),
    {
        TokioBackend {
            io_map: IoMap::new(),
            signal_map: SignalMap::new(),
            dispatch_pending: false,
            joined_io: Vec::new(),
            joined_signal: Vec::new(),
        }
    }

    /// Registers descriptor interest, translating the map's answer into
    /// the reactor's status convention: zero for success, negative one
    /// for failure.
    pub fn add_io(&mut self, fd: i32, io_type: IoType, watch_ok: bool) -> (r: i32)
        requires
            old(self).wf(),
            old(self).io_map.fresh_task() < u64::MAX,
            old(self).io_map.entries().contains_key(fd) ==> old(self).io_map.entries()[fd].nread
                < u32::MAX && old(self).io_map.entries()[fd].nwrite < u32::MAX,
        ensures
            final(self).wf(),
            final(self).signal_map == old(self).signal_map,
            final(self).dispatch_pending == old(self).dispatch_pending,
            final(self).joined_io == old(self).joined_io,
            final(self).joined_signal == old(self).joined_signal,
            old(self).io_map.entries().contains_key(fd) ==> {
                &&& r == 0i32
                &&& final(self).io_map.entries() == old(self).io_map.entries().insert(
                    fd,
                    spec_bump(old(self).io_map.entries()[fd], io_type),
                )
                &&& final(self).io_map.fresh_task() == old(self).io_map.fresh_task()
            },
            !old(self).io_map.entries().contains_key(fd) && watch_ok ==> {
                &&& r == 0i32
                &&& final(self).io_map.entries() == old(self).io_map.entries().insert(
                    fd,
                    spec_initial_entry(io_type, old(self).io_map.fresh_task()),
                )
                &&& final(self).io_map.fresh_task() == old(self).io_map.fresh_task() + 1
            },
            !old(self).io_map.entries().contains_key(fd) && !watch_ok ==> {
                &&& r == -1i32
                &&& final(self).io_map.entries() == old(self).io_map.entries()
                &&& final(self).io_map.fresh_task() == old(self).io_map.fresh_task()
            },
    {
        match self.io_map.add(fd, io_type, watch_ok) {
            Ok(_) => 0,
            Err(_) => -1,
        }
    }

    /// Removes descriptor interest.  When the last interest departs, the
    /// watcher task is joined before this returns, so no in-flight
    /// activation can race a later registration of the same descriptor;
    /// the join is recorded.  An unknown key or an interest never added
    /// reports failure and mutates nothing.
    pub fn del_io(&mut self, fd: i32, io_type: IoType) -> (r: i32)
        requires
            old(self).wf(),
        ensures
            final(self).wf(),
            final(self).signal_map == old(self).signal_map,
            final(self).dispatch_pending == old(self).dispatch_pending,
            final(self).joined_signal == old(self).joined_signal,
            final(self).io_map.fresh_task() == old(self).io_map.fresh_task(),
            (!old(self).io_map.entries().contains_key(fd) || !spec_can_drop(
                old(self).io_map.entries()[fd],
                io_type,
            )) ==> {
                &&& r == -1i32
                &&& final(self).io_map.entries() == old(self).io_map.entries()
                &&& final(self).joined_io == old(self).joined_io
            },
            old(self).io_map.entries().contains_key(fd) && spec_can_drop(
                old(self).io_map.entries()[fd],
                io_type,
            ) ==> {
                let lowered = spec_drop(old(self).io_map.entries()[fd], io_type);
                if lowered.nread == 0 && lowered.nwrite == 0 {
                    &&& r == 0i32
                    &&& final(self).io_map.entries() == old(self).io_map.entries().remove(fd)
                    &&& final(self).joined_io@ == old(self).joined_io@.push(
                        old(self).io_map.entries()[fd].task,
                    )
                } else {
                    &&& r == 0i32
                    &&& final(self).io_map.entries() == old(self).io_map.entries().insert(
                        fd,
                        lowered,
                    )
                    &&& final(self).joined_io == old(self).joined_io
                }
            },
    {
        match self.io_map.del(fd, io_type) {
            Ok(Some(task)) => {
                self.joined_io.push(task);
                0
            },
            Ok(None) => 0,
            Err(_) => -1,
        }
    }

    /// Registers signal interest, with the reactor's status convention.
    pub fn add_signal(&mut self, signum: i32, watch_ok: bool) -> (r: i32)
        requires
            old(self).wf(),
            old(self).signal_map.fresh_task() < u64::MAX,
            old(self).signal_map.entries().contains_key(signum) ==> old(self).signal_map.entries()[signum].armed < u32::MAX,
        ensures
            final(self).wf(),
            final(self).io_map == old(self).io_map,
            final(self).dispatch_pending == old(self).dispatch_pending,
            final(self).joined_io == old(self).joined_io,
            final(self).joined_signal == old(self).joined_signal,
            old(self).signal_map.entries().contains_key(signum) ==> {
                &&& r == 0i32
                &&& final(self).signal_map.entries() == old(self).signal_map.entries().insert(
                    signum,
                    SigEntry {
                        armed: (old(self).signal_map.entries()[signum].armed + 1) as u32,
                        task: old(self).signal_map.entries()[signum].task,
                    },
                )
                &&& final(self).signal_map.fresh_task() == old(self).signal_map.fresh_task()
            },
            !old(self).signal_map.entries().contains_key(signum) && watch_ok ==> {
                &&& r == 0i32
                &&& final(self).signal_map.entries() == old(self).signal_map.entries().insert(
                    signum,
                    SigEntry { armed: 1u32, task: old(self).signal_map.fresh_task() },
                )
                &&& final(self).signal_map.fresh_task() == old(self).signal_map.fresh_task() + 1
            },
            !old(self).signal_map.entries().contains_key(signum) && !watch_ok ==> {
                &&& r == -1i32
                &&& final(self).signal_map.entries() == old(self).signal_map.entries()
                &&& final(self).signal_map.fresh_task() == old(self).signal_map.fresh_task()
            },
    {
        match self.signal_map.add(signum, watch_ok) {
            Ok(_) => 0,
            Err(_) => -1,
        }
    }

    /// Removes signal interest; the departing listener is joined before
    /// this returns and the join recorded, as for descriptors.
    pub fn del_signal(&mut self, signum: i32) -> (r: i32)
        requires
            old(self).wf(),
        ensures
            final(self).wf(),
            final(self).io_map == old(self).io_map,
            final(self).dispatch_pending == old(self).dispatch_pending,
            final(self).joined_io == old(self).joined_io,
            final(self).signal_map.fresh_task() == old(self).signal_map.fresh_task(),
            !old(self).signal_map.entries().contains_key(signum) ==> {
                &&& r == -1i32
                &&& final(self).signal_map.entries() == old(self).signal_map.entries()
                &&& final(self).joined_signal == old(self).joined_signal
            },
            old(self).signal_map.entries().contains_key(signum) ==> {
                let e = old(self).signal_map.entries()[signum];
                if e.armed == 1 {
                    &&& r == 0i32
                    &&& final(self).signal_map.entries() == old(self).signal_map.entries().remove(signum)
                    &&& final(self).joined_signal@ == old(self).joined_signal@.push(e.task)
                } else {
                    &&& r == 0i32
                    &&& final(self).signal_map.entries() == old(self).signal_map.entries().insert(
                        signum,
                        SigEntry { armed: (e.armed - 1) as u32, task: e.task },
                    )
                    &&& final(self).joined_signal == old(self).joined_signal
                }
            },
    {
        match self.signal_map.del(signum) {
            Ok(Some(task)) => {
                self.joined_signal.push(task);
                0
            },
            Ok(None) => 0,
            Err(_) => -1,
        }
    }

    /// One readiness observation of the watcher task serving `fd`: the
    /// descriptor is marked active in the reactor with the direction that
    /// fired, and the dispatch notifier is signalled exactly once.  The
    /// watcher only waits for directions somebody counts.
    pub fn readiness_io(&mut self, base: &mut Base, fd: i32, direction: u32)
        requires
            direction == EV_READ || direction == EV_WRITE,
            old(self).io_map.entries().contains_key(fd),
            direction == EV_READ ==> old(self).io_map.entries()[fd].nread > 0,
            direction == EV_WRITE ==> old(self).io_map.entries()[fd].nwrite > 0,
        ensures
            final(base).active.io_view() == spec_mark_io(
                old(base).active.io_view(),
                fd,
                direction,
            ),
            final(base).active.signal_view() == old(base).active.signal_view(),
            final(base).exit_requested == old(base).exit_requested,
            final(base).break_requested == old(base).break_requested,
            final(base).armed_events == old(base).armed_events,
            final(self).dispatch_pending,
            final(self).io_map == old(self).io_map,
            final(self).signal_map == old(self).signal_map,
            final(self).joined_io == old(self).joined_io,
            final(self).joined_signal == old(self).joined_signal,
    {
        base.active.mark_io(fd, direction);
        self.dispatch_pending = true;
    }

    /// One delivery observed by the listener task serving `signum`: the
    /// signal is marked active in the reactor, and the dispatch notifier
    /// is signalled exactly once.
    pub fn readiness_signal(&mut self, base: &mut Base, signum: i32)
        requires
            old(self).signal_map.entries().contains_key(signum),
        ensures
            final(base).active.signal_view() == old(base).active.signal_view().insert(signum),
            final(base).active.io_view() == old(base).active.io_view(),
            final(base).exit_requested == old(base).exit_requested,
            final(base).break_requested == old(base).break_requested,
            final(base).armed_events == old(base).armed_events,
            final(self).dispatch_pending,
            final(self).io_map == old(self).io_map,
            final(self).signal_map == old(self).signal_map,
            final(self).joined_io == old(self).joined_io,
            final(self).joined_signal == old(self).joined_signal,
    {
        base.active.mark_signal(signum);
        self.dispatch_pending = true;
    }

    /// The dispatch wait.  It runs no user code and touches no reactor
    /// state: it only waits, as the timeout asks, until a readiness task
    /// signals the notifier or the time is up.  A zero timeout takes one
    /// scheduler tick and leaves any pending notification for the next
    /// call; a bounded wait consumes the notification when one is
    /// pending; an unbounded wait returns only on a notification, so one
    /// must be owed.
    pub fn dispatch(&mut self, timeout: Option<Span>) -> (r: DispatchOutcome)
        requires
            timeout is None ==> old(self).dispatch_pending,
        ensures
            final(self).io_map == old(self).io_map,
            final(self).signal_map == old(self).signal_map,
            final(self).joined_io == old(self).joined_io,
            final(self).joined_signal == old(self).joined_signal,
            spec_wait_kind(timeout) is Yield ==> r == DispatchOutcome::Yielded
                && final(self).dispatch_pending == old(self).dispatch_pending,
            spec_wait_kind(timeout) is Timed ==> {
                &&& !final(self).dispatch_pending
                &&& r == (if old(self).dispatch_pending {
                    DispatchOutcome::Notified
                } else {
                    DispatchOutcome::TimedOut
                })
            },
            spec_wait_kind(timeout) is Forever ==> r == DispatchOutcome::Notified
                && !final(self).dispatch_pending,
    {
        match wait_kind(timeout) {
            WaitKind::Yield => DispatchOutcome::Yielded,
            WaitKind::Timed(_) => {
                if self.dispatch_pending {
                    self.dispatch_pending = false;
                    DispatchOutcome::Notified
                } else {
                    DispatchOutcome::TimedOut
                }
            },
            WaitKind::Forever => {
                self.dispatch_pending = false;
                DispatchOutcome::Notified
            },
        }
    }

    /// Tears the backend down: every outstanding watcher and listener is
    /// cancelled and joined, both maps are emptied, and the notification
    /// is dropped.  No further operation on this backend is valid.
    pub fn dealloc(&mut self)
        ensures
            final(self).io_map.entries() == Map::<i32, crate::tokio_backend::io::IoEntry>::empty(),
            final(self).signal_map.entries() == Map::<i32, SigEntry>::empty(),
            !final(self).dispatch_pending,
            final(self).wf(),
    {
        self.io_map = IoMap::new();
        self.signal_map = SignalMap::new();
        self.dispatch_pending = false;
    }
}

/// Dispatch ordering: marking a readiness joins the triggering direction
/// into the reactor's active mask for the descriptor, and the dispatch
/// wait takes no reference to the reactor state at all.  So any readiness
/// a watcher task marked active before a dispatch call returned is in the
/// reactor's active set at that return, whatever the timeout was.
pub proof fn lemma_activation_visible_after_dispatch(m: Map<i32, u32>, fd: i32, direction: u32)
    ensures
        spec_mark_io(m, fd, direction).contains_key(fd),
        spec_mark_io(m, fd, direction)[fd] & direction == direction,
{
    let prev: u32 = if m.contains_key(fd) {
        m[fd]
    } else {
        0u32
    };
    assert((prev | direction) & direction == direction) by (bit_vector);
}

} // verus!
