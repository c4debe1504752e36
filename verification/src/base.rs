//! Flags, time values, and the model of the reactor base.

use vstd::prelude::*;

use crate::event::Event;
use crate::event::EventInner;
use crate::event::Inactive;
use crate::event::Internal;
use crate::event::LifeOp;
use crate::event::Local;
use crate::event::Remote;
use crate::event::life_step;
use std::collections::HashMap;
use std::collections::HashSet;

verus! {

broadcast use vstd::std_specs::hash::group_hash_axioms;

/// Severity tag the reactor's logging hook uses for plain messages.
pub const EVENT_LOG_MSG: u32 = 1;

/// Highest port number reserved for privileged services.
pub const IPPORT_RESERVED: u32 = 1024;

/// An event fired because its timeout elapsed.
pub const EV_TIMEOUT: u32 = 0x01;
/// Interest in, or readiness of, reading from a descriptor.
pub const EV_READ: u32 = 0x02;
/// Interest in, or readiness of, writing to a descriptor.
pub const EV_WRITE: u32 = 0x04;
/// The event watches delivery of a signal number.
pub const EV_SIGNAL: u32 = 0x08;
/// The event stays registered after each activation.
pub const EV_PERSIST: u32 = 0x10;
/// Edge-triggered behaviour, where the reactor supports it.
pub const EV_ET: u32 = 0x20;
/// The event is torn down through the finalization path.
pub const EV_FINALIZE: u32 = 0x40;
/// The peer of the watched descriptor closed the connection.
pub const EV_CLOSED: u32 = 0x80;

/// All event flag bits that are defined.
pub const EV_ALL: u32 = 0xff;

/// Run the loop until one batch of active events has been handled.
pub const EVLOOP_ONCE: u32 = 0x01;
/// Poll for already-active events, never block.
pub const EVLOOP_NONBLOCK: u32 = 0x02;
/// Keep looping even when no events are registered.
pub const EVLOOP_NO_EXIT_ON_EMPTY: u32 = 0x04;

/// All loop flag bits that are defined.
pub const EVLOOP_ALL: u32 = 0x07;

/// Flags that describe what an event waits for, and what activated it.
#[derive(Clone, Copy, Debug, PartialEq, Eq, Structural)]
pub struct EventFlags {
    bits: u32,
}

impl EventFlags {
    /// The raw bit mask this flag set stands for.
    pub closed spec fn spec_bits(self) -> u32 {
        self.bits
    }

    /// The flag set standing for exactly the bits of `bits`.
    pub closed spec fn spec_from(bits: u32) -> EventFlags {
        EventFlags { bits }
    }

    /// No flags set.
    pub fn empty() -> (r: Self)
        ensures
            r.spec_bits() == 0u32,
    {
        EventFlags { bits: 0 }
    }

    /// The flag set with exactly the defined bits of `bits`.
    pub fn from_bits_truncate(bits: u32) -> (r: Self)
        ensures
            r.spec_bits() == bits & EV_ALL,
    {
        EventFlags { bits: bits & EV_ALL }
    }

    /// The raw bit mask.
    pub fn bits(&self) -> (r: u32)
        ensures
            r == self.spec_bits(),
    {
        self.bits
    }

    /// Whether every bit of `other` is set in `self`.
    pub fn contains(&self, other: Self) -> (r: bool)
        ensures
            r <==> self.spec_bits() & other.spec_bits() == other.spec_bits(),
    {
        self.bits & other.bits == other.bits
    }

    /// The union of the two flag sets.
    pub fn union(self, other: Self) -> (r: Self)
        ensures
            r.spec_bits() == self.spec_bits() | other.spec_bits(),
    {
        EventFlags { bits: self.bits | other.bits }
    }

    /// The read-interest flag alone.
    pub fn read() -> (r: Self)
        ensures
            r.spec_bits() == EV_READ,
    {
        EventFlags { bits: EV_READ }
    }

    /// The write-interest flag alone.
    pub fn write() -> (r: Self)
        ensures
            r.spec_bits() == EV_WRITE,
    {
        EventFlags { bits: EV_WRITE }
    }

    /// The signal flag alone.
    pub fn signal() -> (r: Self)
        ensures
            r.spec_bits() == EV_SIGNAL,
    {
        EventFlags { bits: EV_SIGNAL }
    }

    /// The persistence flag alone.
    pub fn persist() -> (r: Self)
        ensures
            r.spec_bits() == EV_PERSIST,
    {
        EventFlags { bits: EV_PERSIST }
    }

    /// Whether the read bit is set.
    pub fn is_read(&self) -> (r: bool)
        ensures
            r <==> self.spec_bits() & EV_READ != 0u32,
    {
        self.bits & EV_READ != 0
    }

    /// Whether the write bit is set.
    pub fn is_write(&self) -> (r: bool)
        ensures
            r <==> self.spec_bits() & EV_WRITE != 0u32,
    {
        self.bits & EV_WRITE != 0
    }

    /// Whether the signal bit is set.
    pub fn is_signal(&self) -> (r: bool)
        ensures
            r <==> self.spec_bits() & EV_SIGNAL != 0u32,
    {
        self.bits & EV_SIGNAL != 0
    }

    /// Whether the persistence bit is set.
    pub fn is_persist(&self) -> (r: bool)
        ensures
            r <==> self.spec_bits() & EV_PERSIST != 0u32,
    {
        self.bits & EV_PERSIST != 0
    }
}

/// A flag set is nothing but its bits: equal bits give equal flag sets.
pub proof fn lemma_event_flags_bits(a: EventFlags, b: EventFlags)
    ensures
        EventFlags::spec_from(a.spec_bits()) == a,
        a.spec_bits() == b.spec_bits() ==> a == b,
        forall|bits: u32| (#[trigger] EventFlags::spec_from(bits)).spec_bits() == bits,
{
}

/// Flags that alter how one run of the event loop behaves.
#[derive(Clone, Copy, Debug, PartialEq, Eq, Structural)]
pub struct LoopFlags {
    bits: u32,
}

impl LoopFlags {
    /// The raw bit mask this flag set stands for.
    pub closed spec fn spec_bits(self) -> u32 {
        self.bits
    }

    /// The flag set standing for exactly the bits of `bits`.
    pub closed spec fn spec_from(bits: u32) -> LoopFlags {
        LoopFlags { bits }
    }

    /// No flags set.
    pub fn empty() -> (r: Self)
        ensures
            r.spec_bits() == 0u32,
    {
        LoopFlags { bits: 0 }
    }

    /// The flag set with exactly the defined bits of `bits`.
    pub fn from_bits_truncate(bits: u32) -> (r: Self)
        ensures
            r.spec_bits() == bits & EVLOOP_ALL,
    {
        LoopFlags { bits: bits & EVLOOP_ALL }
    }

    /// The raw bit mask.
    pub fn bits(&self) -> (r: u32)
        ensures
            r == self.spec_bits(),
    {
        self.bits
    }

    /// Run one batch of active events, then return.
    pub fn once() -> (r: Self)
        ensures
            r.spec_bits() == EVLOOP_ONCE,
    {
        LoopFlags { bits: EVLOOP_ONCE }
    }

    /// Poll without blocking.
    pub fn nonblock() -> (r: Self)
        ensures
            r.spec_bits() == EVLOOP_NONBLOCK,
    {
        LoopFlags { bits: EVLOOP_NONBLOCK }
    }

    /// Whether the flags ask the loop to keep running with no events
    /// registered.
    pub open spec fn spec_keeps_looping(self) -> bool {
        self.spec_bits() & EVLOOP_NO_EXIT_ON_EMPTY != 0
    }
}

/// A loop flag set is nothing but its bits: equal bits give equal sets.
pub proof fn lemma_loop_flags_bits(a: LoopFlags, b: LoopFlags)
    ensures
        LoopFlags::spec_from(a.spec_bits()) == a,
        a.spec_bits() == b.spec_bits() ==> a == b,
        forall|bits: u32| (#[trigger] LoopFlags::spec_from(bits)).spec_bits() == bits,
{
}

/// A span of time, as whole seconds plus microseconds below one second.
#[derive(Clone, Copy, Debug, PartialEq, Eq, Structural)]
pub struct Span {
    /// Whole seconds.
    pub secs: u64,
    /// Microseconds below one second.
    pub micros: u32,
}

impl Span {
    /// A well-formed span keeps its microsecond part below one second.
    pub open spec fn wf(self) -> bool {
        self.micros < 1_000_000
    }

    /// The span of `secs` seconds and `micros` further microseconds.
    pub fn new(secs: u64, micros: u32) -> (r: Self)
        requires
            micros < 1_000_000,
        ensures
            r == (Span { secs, micros }),
    {
        Span { secs, micros }
    }

    /// Whether the span is zero.
    pub fn is_zero(&self) -> (r: bool)
        ensures
            r <==> self.secs == 0u64 && self.micros == 0u32,
    {
        self.secs == 0 && self.micros == 0
    }
}

/// The reactor's native pair of seconds and microseconds.
#[derive(Clone, Copy, Debug, PartialEq, Eq, Structural)]
pub struct TimeVal {
    /// Whole seconds.
    pub tv_sec: u64,
    /// Microseconds below one second.
    pub tv_usec: u32,
}

/// Maps a span to the reactor's native time representation.
pub fn to_timeval(duration: Span) -> (r: TimeVal)
    ensures
        r.tv_sec == duration.secs,
        r.tv_usec == duration.micros,
{
    TimeVal { tv_sec: duration.secs, tv_usec: duration.micros }
}

/// Whether the signal bit is set in a raw flag word.
pub fn event_is_signal(events: u32) -> (r: bool)
    ensures
        r <==> events & EV_SIGNAL != 0u32,
{
    events & EV_SIGNAL != 0
}

/// Whether the read bit is set in a raw flag word.
pub fn event_is_read(events: u32) -> (r: bool)
    ensures
        r <==> events & EV_READ != 0u32,
{
    events & EV_READ != 0
}

/// Whether the write bit is set in a raw flag word.
pub fn event_is_write(events: u32) -> (r: bool)
    ensures
        r <==> events & EV_WRITE != 0u32,
{
    events & EV_WRITE != 0
}

/// Enumerates the reasons one run of the event loop may have returned.
#[derive(Clone, Copy, Debug, PartialEq, Eq, Structural)]
pub enum ExitReason {
    /// The loop was told to exit.
    GotExit,
    /// The loop was told to break immediately.
    GotBreak,
    /// The native loop reported an error.
    Error,
    /// Nothing was registered, so there was nothing to wait for.
    NoPendingEvents,
    /// The loop returned for a reason the mapping does not distinguish.
    Unknown { flags: LoopFlags, exit_code: i32 },
}

/// How a native loop status word and the two exit flags map to a reason.
pub open spec fn spec_exit_reason(
    exit_code: i32,
    got_exit: bool,
    got_break: bool,
    flags: LoopFlags,
) -> ExitReason {
    if exit_code == 0 {
        if got_exit {
            ExitReason::GotExit
        } else if got_break {
            ExitReason::GotBreak
        } else {
            ExitReason::Unknown { flags, exit_code: 0 }
        }
    } else if exit_code == -1 {
        ExitReason::Error
    } else if exit_code == 1 {
        ExitReason::NoPendingEvents
    } else {
        ExitReason::Unknown { flags, exit_code }
    }
}

/// Maps the loop's native status word to an [`ExitReason`].  The exit
/// check comes before the break check, matching the order in which the
/// native loop tests its own flags.
pub fn exit_code_to_reason(exit_code: i32, got_exit: bool, got_break: bool, flags: LoopFlags) -> (r:
    ExitReason)
    ensures
        r == spec_exit_reason(exit_code, got_exit, got_break, flags),
{
    if exit_code == 0 {
        if got_exit {
            ExitReason::GotExit
        } else if got_break {
            ExitReason::GotBreak
        } else {
            ExitReason::Unknown { flags, exit_code: 0 }
        }
    } else if exit_code == -1 {
        ExitReason::Error
    } else if exit_code == 1 {
        ExitReason::NoPendingEvents
    } else {
        ExitReason::Unknown { flags, exit_code }
    }
}

/// The active-descriptor map after one activation joins `mask` into the
/// direction bits already active for `fd`.
pub open spec fn spec_mark_io(m: Map<i32, u32>, fd: i32, mask: u32) -> Map<i32, u32> {
    m.insert(
        fd,
        (if m.contains_key(fd) {
            m[fd]
        } else {
            0u32
        }) | mask,
    )
}

/// The resources the reactor has marked active and will dispatch on its
/// next loop turn.
pub struct ActiveSet {
    io: HashMap<i32, u32>,
    signals: HashSet<i32>,
}

impl ActiveSet {
    /// The active descriptors, each with the direction bits that fired.
    pub closed spec fn io_view(self) -> Map<i32, u32> {
        self.io@
    }

    /// The active signal numbers.
    pub closed spec fn signal_view(self) -> Set<i32> {
        self.signals@
    }

    /// The direction bits active for `fd`, zero when none are.
    pub open spec fn io_mask(self, fd: i32) -> u32 {
        if self.io_view().contains_key(fd) {
            self.io_view()[fd]
        } else {
            0u32
        }
    }

    /// An empty active set.
    pub fn new() -> (r: Self)
        ensures
            r.io_view() == Map::<i32, u32>::empty(),
            r.signal_view() == Set::<i32>::empty(),
    {
        ActiveSet { io: HashMap::new(), signals: HashSet::new() }
    }

    /// Marks `fd` active with the given direction bits, joining them with
    /// any bits already active.
    pub fn mark_io(&mut self, fd: i32, mask: u32)
        ensures
            final(self).io_view() == spec_mark_io(old(self).io_view(), fd, mask),
            final(self).signal_view() == old(self).signal_view(),
    {
        let cur: u32 = match self.io.get(&fd) {
            Some(m) => *m,
            None => 0,
        };
        self.io.insert(fd, cur | mask);
    }

    /// Marks the signal number active.
    pub fn mark_signal(&mut self, signum: i32)
        ensures
            final(self).signal_view() == old(self).signal_view().insert(signum),
            final(self).io_view() == old(self).io_view(),
    {
        self.signals.insert(signum);
    }

    /// The direction bits currently active for `fd`.
    pub fn io_active_mask(&self, fd: i32) -> (r: u32)
        ensures
            r == self.io_mask(fd),
    {
        match self.io.get(&fd) {
            Some(m) => *m,
            None => 0,
        }
    }

    /// Whether the signal number is currently active.
    pub fn signal_is_active(&self, signum: i32) -> (r: bool)
        ensures
            r <==> self.signal_view().contains(signum),
    {
        self.signals.contains(&signum)
    }

    /// Empties the active set, as a loop turn does once it has dispatched
    /// every active resource.
    pub fn clear(&mut self)
        ensures
            final(self).io_view() == Map::<i32, u32>::empty(),
            final(self).signal_view() == Set::<i32>::empty(),
    {
        self.io.clear();
        self.signals.clear();
    }
}

/// The model of the reactor base: the loop-control flags a running loop
/// consults, the count of registered events, and the set of resources
/// marked active for the next turn.
pub struct Base {
    /// Resources marked active and not yet dispatched.
    pub active: ActiveSet,
    /// The loop was asked to exit after the current turn.
    pub exit_requested: bool,
    /// The loop was asked to break immediately.
    pub break_requested: bool,
    /// How many events are currently registered with the reactor.
    pub armed_events: u64,
}

impl Base {
    /// The status word one loop run would report in this state.
    pub open spec fn spec_loop_code(self) -> i32 {
        if !self.exit_requested && !self.break_requested && self.armed_events == 0 {
            1i32
        } else {
            0i32
        }
    }

    /// A fresh reactor base with nothing registered and nothing active.
    pub fn new() -> (r: Self)
        ensures
            r.active.io_view() == Map::<i32, u32>::empty(),
            r.active.signal_view() == Set::<i32>::empty(),
            !r.exit_requested,
            !r.break_requested,
            r.armed_events == 0u64,
    {
        Base {
            active: ActiveSet::new(),
            exit_requested: false,
            break_requested: false,
            armed_events: 0,
        }
    }

    /// One run of the event loop.  The run dispatches and drains every
    /// active resource, consumes any exit or break request, and reports
    /// why it returned.  A run with the keep-looping-when-empty flag and
    /// no exit or break request pending would never return, so that
    /// combination is excluded up front.
    pub fn loop_(&mut self, flags: LoopFlags) -> (r: ExitReason)
        requires
            flags.spec_keeps_looping() ==> old(self).exit_requested || old(self).break_requested,
        ensures
            final(self).active.io_view() == Map::<i32, u32>::empty(),
            final(self).active.signal_view() == Set::<i32>::empty(),
            !final(self).exit_requested,
            !final(self).break_requested,
            final(self).armed_events == old(self).armed_events,
            r == spec_exit_reason(
                old(self).spec_loop_code(),
                old(self).exit_requested,
                old(self).break_requested,
                flags,
            ),
    {
        let code: i32 = if !self.exit_requested && !self.break_requested && self.armed_events
            == 0 {
            1
        } else {
            0
        };
        self.active.clear();
        let got_exit = self.exit_requested;
        let got_break = self.break_requested;
        self.exit_requested = false;
        self.break_requested = false;
        exit_code_to_reason(code, got_exit, got_break, flags)
    }

    /// Asks the running loop to exit once the current turn is over.  The
    /// model folds the delay away and records the request at once.
    pub fn loopexit(&mut self, timeout: Span) -> (r: i32)
        ensures
            r == 0i32,
            *final(self) == (Base { exit_requested: true, ..*old(self) }),
    {
        self.exit_requested = true;
        0
    }

    /// Asks the running loop to break immediately.
    pub fn loopbreak(&mut self) -> (r: i32)
        ensures
            r == 0i32,
            *final(self) == (Base { break_requested: true, ..*old(self) }),
    {
        self.break_requested = true;
        0
    }

    /// Asks the running loop to resume scanning for active events.  The
    /// model run always rescans, so nothing is recorded.
    pub fn loopcontinue(&mut self) -> (r: i32)
        ensures
            r == 0i32,
            *final(self) == *old(self),
    {
        0
    }

    /// Turns the loop once without blocking.
    pub fn turn(&mut self) -> (r: ExitReason)
        ensures
            final(self).active.io_view() == Map::<i32, u32>::empty(),
            final(self).active.signal_view() == Set::<i32>::empty(),
            !final(self).exit_requested,
            !final(self).break_requested,
            final(self).armed_events == old(self).armed_events,
            r == spec_exit_reason(
                old(self).spec_loop_code(),
                old(self).exit_requested,
                old(self).break_requested,
                LoopFlags::spec_from(EVLOOP_NONBLOCK),
            ),
    {
        let flags = LoopFlags::nonblock();
        proof {
            assert(2u32 & 4u32 == 0u32) by (bit_vector);
            lemma_loop_flags_bits(flags, flags);
        }
        self.loop_(flags)
    }

    /// Turns the loop until the given timeout is reached: the exit is
    /// scheduled first, so the run always reports that it was told to
    /// exit.
    pub fn run_timeout(&mut self, timeout: Span) -> (r: ExitReason)
        ensures
            r == ExitReason::GotExit,
            final(self).active.io_view() == Map::<i32, u32>::empty(),
            final(self).active.signal_view() == Set::<i32>::empty(),
            !final(self).exit_requested,
            !final(self).break_requested,
            final(self).armed_events == old(self).armed_events,
    {
        if self.loopexit(timeout) != 0 {
            return ExitReason::Error;
        }
        self.loop_(LoopFlags::empty())
    }

    /// Turns the loop until the next batch of active events has been
    /// handled, or until the optional timeout is reached.
    pub fn run_until_event(&mut self, timeout: Option<Span>) -> (r: ExitReason)
        ensures
            final(self).active.io_view() == Map::<i32, u32>::empty(),
            final(self).active.signal_view() == Set::<i32>::empty(),
            !final(self).exit_requested,
            !final(self).break_requested,
            final(self).armed_events == old(self).armed_events,
            r == (match timeout {
                Some(_) => ExitReason::GotExit,
                None => spec_exit_reason(
                    old(self).spec_loop_code(),
                    old(self).exit_requested,
                    old(self).break_requested,
                    LoopFlags::spec_from(EVLOOP_ONCE),
                ),
            }),
    {
        if let Some(t) = timeout {
            if self.loopexit(t) != 0 {
                return ExitReason::Error;
            }
        }
        let flags = LoopFlags::once();
        proof {
            assert(1u32 & 4u32 == 0u32) by (bit_vector);
            lemma_loop_flags_bits(flags, flags);
        }
        self.loop_(flags)
    }

    /// Turns the loop until it is told to exit or runs out of events.
    pub fn run(&mut self) -> (r: ExitReason)
        ensures
            final(self).active.io_view() == Map::<i32, u32>::empty(),
            final(self).active.signal_view() == Set::<i32>::empty(),
            !final(self).exit_requested,
            !final(self).break_requested,
            final(self).armed_events == old(self).armed_events,
            r == spec_exit_reason(
                old(self).spec_loop_code(),
                old(self).exit_requested,
                old(self).break_requested,
                LoopFlags::spec_from(0u32),
            ),
    {
        let flags = LoopFlags::empty();
        proof {
            assert(0u32 & 4u32 == 0u32) by (bit_vector);
            lemma_loop_flags_bits(flags, flags);
        }
        self.loop_(flags)
    }

    /// Allocates and initializes a new native event for this base.  A
    /// timer passes no descriptor and is stored with the placeholder the
    /// native layer uses.  `has_ctx` says whether a context pointer is
    /// attached at creation.  The model's allocation cannot fail.
    pub fn event_new(&mut self, fd: Option<i32>, flags: EventFlags, has_ctx: bool) -> (r: Option<
        EventInner,
    >)
        ensures
            *final(self) == *old(self),
            r == Some(
                EventInner {
                    fd: spec_normalize_fd(fd),
                    flags,
                    timeout: None,
                    armed: false,
                    in_callback: false,
                    stopped: false,
                    ctx_present: has_ctx,
                    freed: 0u32,
                },
            ),
    {
        let mut ev = EventInner::new(normalize_fd(fd), flags, None);
        ev.ctx_present = has_ctx;
        Some(ev)
    }

    /// Re-initializes an existing, unregistered native event with new
    /// parameters, optionally attaching a context pointer.  Attaching over
    /// a live context would leak it, so that is excluded up front.
    pub fn event_assign(
        &mut self,
        ev: &mut EventInner,
        fd: Option<i32>,
        flags: EventFlags,
        has_ctx: bool,
    ) -> (r: i32)
        requires
            !old(ev).armed,
            !old(ev).in_callback,
            has_ctx ==> !old(ev).ctx_present && old(ev).freed == 0,
        ensures
            r == 0i32,
            *final(self) == *old(self),
            *final(ev) == (EventInner {
                fd: spec_normalize_fd(fd),
                flags,
                ctx_present: old(ev).ctx_present || has_ctx,
                ..*old(ev)
            }),
    {
        ev.fd = normalize_fd(fd);
        ev.flags = flags;
        if has_ctx {
            ev.ctx_present = true;
        }
        0
    }

    /// Registers the event with this base, with an optional timeout.  A
    /// stopped event must not be re-armed, and none is re-armed from
    /// inside its own callback.
    pub fn event_add(&mut self, ev: &mut EventInner, timeout: Option<Span>) -> (r: i32)
        requires
            !old(ev).stopped,
            !old(ev).in_callback,
            old(self).armed_events < u64::MAX,
        ensures
            r == 0i32,
            *final(ev) == (EventInner { armed: true, timeout, ..*old(ev) }),
            *final(self) == (Base {
                armed_events: if old(ev).armed {
                    old(self).armed_events
                } else {
                    (old(self).armed_events + 1) as u64
                },
                ..*old(self)
            }),
    {
        if !ev.armed {
            self.armed_events = self.armed_events + 1;
        }
        ev.armed = true;
        ev.timeout = timeout;
        0
    }

    /// Removes the event from this base.  Removing an event that is not
    /// registered is a no-op, as it is natively.
    pub fn event_del(&mut self, ev: &mut EventInner) -> (r: i32)
        requires
            old(ev).armed ==> old(self).armed_events > 0,
        ensures
            r == 0i32,
            *final(ev) == (EventInner { armed: false, ..*old(ev) }),
            *final(self) == (Base {
                armed_events: if old(ev).armed {
                    (old(self).armed_events - 1) as u64
                } else {
                    old(self).armed_events
                },
                ..*old(self)
            }),
    {
        if ev.armed {
            self.armed_events = self.armed_events - 1;
        }
        ev.armed = false;
        0
    }
}

impl Base {
    /// Activates an inactive event with no handle sharing: the returned
    /// handle stands for the one the callback context owns, and control
    /// of the event is relegated to the closure alone.  The user closure
    /// itself is opaque to the model; what it does to its own event
    /// enters through the trampoline.
    pub fn spawn<T>(&mut self, ev: Event<Inactive<T>>) -> (r: Event<Internal<T>>)
        requires
            old(self).armed_events < u64::MAX,
        ensures
            r.inner.inner == (EventInner {
                fd: spec_normalize_fd(ev.inner.fd),
                flags: ev.inner.flags,
                timeout: ev.inner.timeout,
                armed: true,
                in_callback: false,
                stopped: false,
                ctx_present: true,
                freed: 0u32,
            }),
            r.inner.inner.wf(),
            *final(self) == (Base {
                armed_events: (old(self).armed_events + 1) as u64,
                ..*old(self)
            }),
    {
        let raw = self.event_new(ev.inactive_fd(), ev.inactive_flags(), false);
        let mut inner = raw.unwrap();
        self.event_assign(&mut inner, ev.inactive_fd(), ev.inactive_flags(), true);
        self.event_add(&mut inner, ev.inactive_timeout());
        Event::<Internal<T>>::from_inner(inner)
    }

    /// Activates an inactive event with cross-task sharing: as under
    /// single-thread sharing, the returned handle is shared with the
    /// non-owning back-reference the closure receives, and the pair is
    /// safe to move across task boundaries.
    pub fn spawn_shared<T>(&mut self, ev: Event<Inactive<T>>) -> (r: Event<Remote<T>>)
        requires
            old(self).armed_events < u64::MAX,
        ensures
            r.inner.inner == (EventInner {
                fd: spec_normalize_fd(ev.inner.fd),
                flags: ev.inner.flags,
                timeout: ev.inner.timeout,
                armed: true,
                in_callback: false,
                stopped: false,
                ctx_present: true,
                freed: 0u32,
            }),
            r.inner.inner.wf(),
            *final(self) == (Base {
                armed_events: (old(self).armed_events + 1) as u64,
                ..*old(self)
            }),
    {
        let raw = self.event_new(ev.inactive_fd(), ev.inactive_flags(), false);
        let mut inner = raw.unwrap();
        self.event_assign(&mut inner, ev.inactive_fd(), ev.inactive_flags(), true);
        self.event_add(&mut inner, ev.inactive_timeout());
        Event::<Remote<T>>::from_inner(inner)
    }

    /// Activates an inactive event with single-thread sharing: the
    /// returned handle is shared with the non-owning back-reference the
    /// closure receives.
    pub fn spawn_local<T>(&mut self, ev: Event<Inactive<T>>) -> (r: Event<Local<T>>)
        requires
            old(self).armed_events < u64::MAX,
        ensures
            r.inner.inner == (EventInner {
                fd: spec_normalize_fd(ev.inner.fd),
                flags: ev.inner.flags,
                timeout: ev.inner.timeout,
                armed: true,
                in_callback: false,
                stopped: false,
                ctx_present: true,
                freed: 0u32,
            }),
            r.inner.inner.wf(),
            *final(self) == (Base {
                armed_events: (old(self).armed_events + 1) as u64,
                ..*old(self)
            }),
    {
        let raw = self.event_new(ev.inactive_fd(), ev.inactive_flags(), false);
        let mut inner = raw.unwrap();
        self.event_assign(&mut inner, ev.inactive_fd(), ev.inactive_flags(), true);
        self.event_add(&mut inner, ev.inactive_timeout());
        Event::<Local<T>>::from_inner(inner)
    }
}

/// The descriptor value the native layer stores for an event: the
/// descriptor itself, or the timer placeholder when there is none.
pub open spec fn spec_normalize_fd(fd: Option<i32>) -> i32 {
    match fd {
        Some(x) => x,
        None => -1i32,
    }
}

/// Maps an optional descriptor to the value the native layer stores.
pub fn normalize_fd(fd: Option<i32>) -> (r: i32)
    ensures
        r == spec_normalize_fd(fd),
{
    match fd {
        Some(x) => x,
        None => -1,
    }
}

/// The trampoline the reactor invokes for an activated event.  It
/// brackets the user closure with the in-callback flag, lets the closure
/// ask its own event to stop, and settles the aftermath: a stopped or
/// one-shot event is removed and its context released, exactly here and
/// exactly once; a persistent one stays registered.
///
/// `closure_stops` stands for what the user closure did: whether it asked
/// its own event to stop.
pub fn handle_wrapped_callback(base: &mut Base, ev: &mut EventInner, closure_stops: bool) -> (freed_now: bool)
    requires
        old(ev).wf(),
        old(ev).armed,
        old(ev).ctx_present,
        !old(ev).in_callback,
        old(base).armed_events > 0,
    ensures
        ({
            let entered = life_step(*old(ev), LifeOp::CallbackEnter);
            let mid = if closure_stops {
                life_step(entered, LifeOp::Stop)
            } else {
                entered
            };
            *final(ev) == life_step(mid, LifeOp::CallbackExit)
        }),
        freed_now <==> (old(ev).stopped || closure_stops || !old(ev).persistent()),
        final(ev).freed == (if freed_now {
            old(ev).freed + 1
        } else {
            old(ev).freed as int
        }),
        final(ev).wf(),
        !final(ev).in_callback,
        *final(base) == (Base {
            armed_events: if freed_now {
                (old(base).armed_events - 1) as u64
            } else {
                old(base).armed_events
            },
            ..*old(base)
        }),
{
    ev.in_callback = true;
    if closure_stops {
        ev.stopped = true;
        base.event_del(ev);
    }
    ev.in_callback = false;
    let freed_now = ev.stopped || !ev.flags.is_persist();
    if freed_now {
        if ev.armed {
            base.event_del(ev);
        }
        ev.ctx_present = false;
        ev.freed = ev.freed + 1;
    }
    freed_now
}

/// The finalizer the teardown path invokes: it releases the boxed
/// callback context exactly once and clears the native object's context
/// field.  It is never invoked while the closure is executing.
pub fn finalize_wrapped_callback(ev: &mut EventInner)
    requires
        old(ev).wf(),
        old(ev).ctx_present,
        !old(ev).in_callback,
    ensures
        *final(ev) == (EventInner { ctx_present: false, freed: 1u32, ..*old(ev) }),
{
    ev.ctx_present = false;
    ev.freed = ev.freed + 1;
}

} // verus!
