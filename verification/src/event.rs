//! Event handles, ownership wrappers, and the callback-context lifecycle.
//!
//! One native event object carries one boxed callback context.  The model
//! keeps the whole per-event state in [`EventInner`] and defines the
//! lifecycle as a step relation, so that the two guarantees the design
//! rests on can be stated and proved:
//!
//! * the context is released at most once, on every interleaving of
//!   stopping, dropping and callback execution;
//! * a stop issued while the closure is executing defers the release
//!   until the closure has returned.

use vstd::prelude::*;

use crate::base::Base;
use crate::base::EventFlags;
use crate::base::Span;
use crate::base::EV_PERSIST;
use crate::base::finalize_wrapped_callback;
use core::marker::PhantomData;

verus! {

/// Marker for events driven by a file descriptor.
#[derive(Debug)]
pub struct Fd;

/// Marker for repeating interval timers.
#[derive(Debug)]
pub struct Interval;

/// Marker for one-shot timers that finalize themselves after firing.
#[derive(Debug)]
pub struct Oneshot;

/// The complete state of one native event object and the boxed callback
/// context attached to it.
///
/// A running backend guards `in_callback` and `stopped` with atomics
/// shared between the outer handle and the context; the model is driven
/// from the reactor's single dispatch thread, so they are plain fields
/// here.
#[derive(Clone, Copy, Debug, PartialEq, Eq)]
pub struct EventInner {
    /// The watched descriptor, or `-1` for pure timers.
    pub fd: i32,
    /// The activation flags the event was created with.
    pub flags: EventFlags,
    /// The timeout the event was last armed with, if any.
    pub timeout: Option<Span>,
    /// Whether the event is registered with the reactor.
    pub armed: bool,
    /// Whether the user closure is executing right now.
    pub in_callback: bool,
    /// Whether the event was asked to stop and must not be re-armed.
    pub stopped: bool,
    /// Whether the native object's context field still holds the boxed closure.
    pub ctx_present: bool,
    /// How many times the boxed context has been released.
    pub freed: u32,
}

/// One abstract operation of the event lifecycle.
pub enum LifeOp {
    /// Box the closure and store it in the native object's context field.
    AttachContext,
    /// Register the event with the reactor.
    Arm,
    /// The trampoline starts running the user closure.
    CallbackEnter,
    /// A stop request, from inside or outside the closure.
    Stop,
    /// The user closure returned; the trampoline settles the aftermath.
    CallbackExit,
    /// The owning handle goes away and tears the event down.
    Teardown,
}

impl EventInner {
    /// The state invariant every reachable event state satisfies.
    pub open spec fn wf(self) -> bool {
        &&& self.freed <= 1
        &&& self.ctx_present ==> self.freed == 0
        &&& self.in_callback ==> self.ctx_present
    }

    /// Whether the event stays registered after each activation.
    pub open spec fn persistent(self) -> bool {
        self.flags.spec_bits() & EV_PERSIST != 0
    }

    /// A fresh, unregistered event with no context attached.
    pub fn new(fd: i32, flags: EventFlags, timeout: Option<Span>) -> (r: Self)
        ensures
            r == (EventInner {
                fd,
                flags,
                timeout,
                armed: false,
                in_callback: false,
                stopped: false,
                ctx_present: false,
                freed: 0u32,
            }),
    {
        EventInner {
            fd,
            flags,
            timeout,
            armed: false,
            in_callback: false,
            stopped: false,
            ctx_present: false,
            freed: 0,
        }
    }
}

/// Whether `op` may fire in state `s`.
pub open spec fn life_enabled(s: EventInner, op: LifeOp) -> bool {
    match op {
        LifeOp::AttachContext => !s.ctx_present && s.freed == 0,
        LifeOp::Arm => s.ctx_present && !s.in_callback && !s.stopped,
        LifeOp::CallbackEnter => s.armed && s.ctx_present && !s.in_callback,
        LifeOp::Stop => true,
        LifeOp::CallbackExit => s.in_callback,
        LifeOp::Teardown => !s.in_callback,
    }
}

/// The state after `op` fires in state `s`.
pub open spec fn life_step(s: EventInner, op: LifeOp) -> EventInner {
    match op {
        LifeOp::AttachContext => EventInner { ctx_present: true, ..s },
        LifeOp::Arm => EventInner { armed: true, ..s },
        LifeOp::CallbackEnter => EventInner { in_callback: true, ..s },
        LifeOp::Stop => EventInner { stopped: true, armed: false, ..s },
        LifeOp::CallbackExit => if s.stopped || !s.persistent() {
            EventInner {
                in_callback: false,
                armed: false,
                ctx_present: false,
                freed: if s.ctx_present {
                    (s.freed + 1) as u32
                } else {
                    s.freed
                },
                ..s
            }
        } else {
            EventInner { in_callback: false, ..s }
        },
        LifeOp::Teardown => EventInner {
            armed: false,
            ctx_present: false,
            freed: if s.ctx_present {
                (s.freed + 1) as u32
            } else {
                s.freed
            },
            ..s
        },
    }
}

/// The state after the whole sequence `ops` has run from `s`.
pub open spec fn life_run(s: EventInner, ops: Seq<LifeOp>) -> EventInner
    decreases ops.len(),
{
    if ops.len() == 0 {
        s
    } else {
        life_run(life_step(s, ops[0]), ops.subrange(1, ops.len() as int))
    }
}

/// Whether every operation of `ops` is enabled when its turn comes.
pub open spec fn life_trace_enabled(s: EventInner, ops: Seq<LifeOp>) -> bool
    decreases ops.len(),
{
    ops.len() == 0 || (life_enabled(s, ops[0]) && life_trace_enabled(
        life_step(s, ops[0]),
        ops.subrange(1, ops.len() as int),
    ))
}

/// Each enabled step preserves the state invariant, and releases the
/// context at most once: the release counter never decreases and never
/// passes one.
pub proof fn lemma_life_step_preserves_wf(s: EventInner, op: LifeOp)
    requires
        s.wf(),
        life_enabled(s, op),
    ensures
        life_step(s, op).wf(),
        s.freed <= life_step(s, op).freed <= 1,
{
}

/// No double free: along every enabled lifecycle trace, from any
/// well-formed starting state, the callback context is released at most
/// once in total.
pub proof fn lemma_finalize_at_most_once(s: EventInner, ops: Seq<LifeOp>)
    requires
        s.wf(),
        life_trace_enabled(s, ops),
    ensures
        life_run(s, ops).wf(),
        s.freed <= life_run(s, ops).freed <= 1,
    decreases ops.len(),
{
    if ops.len() > 0 {
        lemma_life_step_preserves_wf(s, ops[0]);
        lemma_finalize_at_most_once(life_step(s, ops[0]), ops.subrange(1, ops.len() as int));
    }
}

/// Once the context is gone, it stays gone: no step re-attaches a
/// released context, and nothing is ever released again.
pub proof fn lemma_released_stays_released(s: EventInner, ops: Seq<LifeOp>)
    requires
        s.wf(),
        !s.ctx_present,
        s.freed == 1,
        life_trace_enabled(s, ops),
    ensures
        !life_run(s, ops).ctx_present,
        life_run(s, ops).freed == 1,
    decreases ops.len(),
{
    if ops.len() > 0 {
        lemma_life_step_preserves_wf(s, ops[0]);
        lemma_released_stays_released(life_step(s, ops[0]), ops.subrange(1, ops.len() as int));
    }
}

/// No double free, the exact count: from any well-formed state that holds
/// a context, every enabled trace that parts with the context -- through
/// an explicit stop and teardown, a plain teardown, or the trampoline's
/// aftermath -- releases it exactly once, and a trace that keeps the
/// context releases it not at all.
pub proof fn lemma_release_exactly_once(s: EventInner, ops: Seq<LifeOp>)
    requires
        s.wf(),
        s.ctx_present,
        life_trace_enabled(s, ops),
    ensures
        life_run(s, ops).ctx_present ==> life_run(s, ops).freed == 0,
        !life_run(s, ops).ctx_present ==> life_run(s, ops).freed == 1,
    decreases ops.len(),
{
    if ops.len() > 0 {
        lemma_life_step_preserves_wf(s, ops[0]);
        let next = life_step(s, ops[0]);
        let rest = ops.subrange(1, ops.len() as int);
        if next.ctx_present {
            lemma_release_exactly_once(next, rest);
        } else {
            lemma_released_stays_released(next, rest);
        }
    }
}

/// Callback/finalize ordering: a stop issued while the closure is
/// executing releases nothing by itself; the release happens exactly once
/// when the closure returns and the trampoline settles the aftermath.
pub proof fn lemma_stop_defers_release_while_in_callback(s: EventInner)
    requires
        s.wf(),
        s.in_callback,
    ensures
        life_step(s, LifeOp::Stop).freed == s.freed,
        life_step(s, LifeOp::Stop).ctx_present == s.ctx_present,
        life_step(s, LifeOp::Stop).stopped,
        life_step(life_step(s, LifeOp::Stop), LifeOp::CallbackExit).freed == s.freed + 1,
        !life_step(life_step(s, LifeOp::Stop), LifeOp::CallbackExit).ctx_present,
{
}

/// A stop issued while the closure is idle releases nothing either: the
/// release is owed to the teardown of the owning handle, which then frees
/// exactly once.
pub proof fn lemma_stop_then_teardown_releases_once(s: EventInner)
    requires
        s.wf(),
        !s.in_callback,
        s.ctx_present,
    ensures
        life_step(s, LifeOp::Stop).freed == s.freed,
        life_step(life_step(s, LifeOp::Stop), LifeOp::Teardown).freed == s.freed + 1,
        !life_step(life_step(s, LifeOp::Stop), LifeOp::Teardown).ctx_present,
{
}

/// Idempotent removal safety, the stop half: asking an already-stopped
/// event to stop again changes nothing, and is no error.
pub proof fn lemma_stop_idempotent(s: EventInner)
    ensures
        life_step(life_step(s, LifeOp::Stop), LifeOp::Stop) == life_step(s, LifeOp::Stop),
{
}

impl EventInner {
    /// Deactivates the event by removing it from its base.  The native
    /// object and its context stay alive: release is the teardown path's
    /// job, never this one's.
    pub fn stop(&mut self, base: &mut Base)
        requires
            old(self).armed ==> old(base).armed_events > 0,
        ensures
            *final(self) == (EventInner { armed: false, ..*old(self) }),
            *final(base) == (Base {
                armed_events: if old(self).armed {
                    (old(base).armed_events - 1) as u64
                } else {
                    old(base).armed_events
                },
                ..*old(base)
            }),
    {
        base.event_del(self);
    }
}

/// An event definition that has not been given to a base yet.  The
/// event-kind marker `T` decides how callback arguments will be mapped.
#[derive(Debug, PartialEq, Eq)]
pub struct Inactive<T> {
    /// The descriptor to watch, or `None` for a pure timer.
    pub fd: Option<i32>,
    /// The activation flags the event will be created with.
    pub flags: EventFlags,
    /// The timeout the event will be armed with, if any.
    pub timeout: Option<Span>,
    pub _phantom: PhantomData<T>,
}

/// Exclusive ownership: the callback context alone holds the handle.
#[derive(Debug, PartialEq, Eq)]
pub struct Internal<T> {
    /// The state of the wrapped native event.
    pub inner: EventInner,
    pub _phantom: PhantomData<T>,
}

/// Single-thread sharing: the handle returned to the caller and the
/// non-owning back-reference inside the closure reach the same state.
/// The model is driven from one thread, so the state is held here.
#[derive(Debug, PartialEq, Eq)]
pub struct Local<T> {
    /// The state of the wrapped native event.
    pub inner: EventInner,
    pub _phantom: PhantomData<T>,
}

/// The non-owning back-reference a closure receives under single-thread
/// sharing.  It counts for nothing toward ownership and carries no state
/// in the model.
#[derive(Debug, PartialEq, Eq)]
pub struct LocalWeak<T> {
    pub _phantom: PhantomData<T>,
}

/// Cross-task sharing: the same semantics as single-thread sharing, but
/// safe to move across task boundaries.  The model is driven from one
/// thread, so the state is held here as well.
#[derive(Debug, PartialEq, Eq)]
pub struct Remote<T> {
    /// The state of the wrapped native event.
    pub inner: EventInner,
    pub _phantom: PhantomData<T>,
}

/// The non-owning back-reference a closure receives under cross-task
/// sharing.
#[derive(Debug, PartialEq, Eq)]
pub struct RemoteWeak<T> {
    pub _phantom: PhantomData<T>,
}

/// The exposed event handle, wrapping the event state under one of the
/// ownership disciplines.
#[derive(Debug, PartialEq, Eq)]
pub struct Event<S> {
    /// The ownership wrapper around the event state.
    pub inner: S,
}

impl<T> Inactive<T> {
    /// Builds an inactive event definition under a fresh handle.
    fn new(fd: Option<i32>, flags: EventFlags, timeout: Option<Span>) -> (r: Event<Inactive<T>>)
        ensures
            r.inner.fd == fd,
            r.inner.flags == flags,
            r.inner.timeout == timeout,
    {
        Event { inner: Inactive { fd, flags, timeout, _phantom: PhantomData } }
    }
}

impl Event<Inactive<Fd>> {
    /// An inactive descriptor event.
    pub fn new(fd: i32, flags: EventFlags, timeout: Option<Span>) -> (r: Self)
        ensures
            r.inner.fd == Some(fd),
            r.inner.flags == flags,
            r.inner.timeout == timeout,
    {
        Inactive::new(Some(fd), flags, timeout)
    }
}

impl Interval {
    /// An inactive repeating timer: no descriptor, persistent, fired
    /// every `interval`.
    pub fn new(interval: Span) -> (r: Event<Inactive<Interval>>)
        ensures
            r.inner.fd is None,
            r.inner.flags.spec_bits() == EV_PERSIST,
            r.inner.timeout == Some(interval),
    {
        Inactive::new(None, EventFlags::persist(), Some(interval))
    }
}

impl Oneshot {
    /// An inactive one-shot timer: no descriptor, not persistent, fired
    /// once after `timeout`.
    pub fn new(timeout: Span) -> (r: Event<Inactive<Oneshot>>)
        ensures
            r.inner.fd is None,
            r.inner.flags.spec_bits() == 0u32,
            r.inner.timeout == Some(timeout),
    {
        Inactive::new(None, EventFlags::empty(), Some(timeout))
    }
}

impl<T> Event<Inactive<T>> {
    /// The descriptor the definition watches, if any.
    pub fn inactive_fd(&self) -> (r: Option<i32>)
        ensures
            r == self.inner.fd,
    {
        self.inner.fd
    }

    /// The flags the definition carries.
    pub fn inactive_flags(&self) -> (r: EventFlags)
        ensures
            r == self.inner.flags,
    {
        self.inner.flags
    }

    /// The timeout the definition carries, if any.
    pub fn inactive_timeout(&self) -> (r: Option<Span>)
        ensures
            r == self.inner.timeout,
    {
        self.inner.timeout
    }
}

impl<T> Event<Internal<T>> {
    /// Wraps an event state under exclusive ownership.
    pub fn from_inner(inner: EventInner) -> (r: Self)
        ensures
            r.inner.inner == inner,
    {
        Event { inner: Internal { inner, _phantom: PhantomData } }
    }

    /// Whether the user closure is executing right now.
    pub fn in_callback(&self) -> (r: bool)
        ensures
            r == self.inner.inner.in_callback,
    {
        self.inner.inner.in_callback
    }

    /// Whether the event was asked to stop.
    pub fn stopped(&self) -> (r: bool)
        ensures
            r == self.inner.inner.stopped,
    {
        self.inner.inner.stopped
    }

    /// Asks the event to stop: it is removed from the base and will not
    /// be re-armed.  Asking twice is a no-op, not an error.  The context
    /// is never released here, so a stop from inside the running closure
    /// leaves the closure's memory alone until the closure returns.
    pub fn stop(&mut self, base: &mut Base)
        requires
            old(self).inner.inner.armed ==> old(base).armed_events > 0,
        ensures
            final(self).inner.inner == life_step(old(self).inner.inner, LifeOp::Stop),
            *final(base) == (Base {
                armed_events: if old(self).inner.inner.armed {
                    (old(base).armed_events - 1) as u64
                } else {
                    old(base).armed_events
                },
                ..*old(base)
            }),
    {
        self.inner.inner.stopped = true;
        self.inner.inner.stop(base);
    }

    /// Tears the handle down, as dropping the last owner does: the event
    /// is removed from the base and the context, if still attached, is
    /// released exactly once.  Nothing may tear a handle down while its
    /// closure is executing; the trampoline defers to its own aftermath
    /// instead.
    pub fn close(&mut self, base: &mut Base)
        requires
            old(self).inner.inner.wf(),
            !old(self).inner.inner.in_callback,
            old(self).inner.inner.armed ==> old(base).armed_events > 0,
        ensures
            final(self).inner.inner == life_step(old(self).inner.inner, LifeOp::Teardown),
            final(self).inner.inner.wf(),
            *final(base) == (Base {
                armed_events: if old(self).inner.inner.armed {
                    (old(base).armed_events - 1) as u64
                } else {
                    old(base).armed_events
                },
                ..*old(base)
            }),
    {
        if self.inner.inner.ctx_present {
            finalize_wrapped_callback(&mut self.inner.inner);
        }
        base.event_del(&mut self.inner.inner);
    }
}

impl<T> Event<Local<T>> {
    /// Wraps an event state under single-thread sharing.
    pub fn from_inner(inner: EventInner) -> (r: Self)
        ensures
            r.inner.inner == inner,
    {
        Event { inner: Local { inner, _phantom: PhantomData } }
    }

    /// Whether the user closure is executing right now.
    pub fn in_callback(&self) -> (r: bool)
        ensures
            r == self.inner.inner.in_callback,
    {
        self.inner.inner.in_callback
    }

    /// Whether the event was asked to stop.
    pub fn stopped(&self) -> (r: bool)
        ensures
            r == self.inner.inner.stopped,
    {
        self.inner.inner.stopped
    }

    /// A non-owning back-reference for handing into the closure, so the
    /// closure never keeps a strong reference to its own container.
    pub fn downgrade(&self) -> (r: Event<LocalWeak<T>>)
    {
        Event { inner: LocalWeak { _phantom: PhantomData } }
    }

    /// Asks the event to stop.  Same contract as under exclusive
    /// ownership: removal now, release deferred to teardown.
    pub fn stop(&mut self, base: &mut Base)
        requires
            old(self).inner.inner.armed ==> old(base).armed_events > 0,
        ensures
            final(self).inner.inner == life_step(old(self).inner.inner, LifeOp::Stop),
            *final(base) == (Base {
                armed_events: if old(self).inner.inner.armed {
                    (old(base).armed_events - 1) as u64
                } else {
                    old(base).armed_events
                },
                ..*old(base)
            }),
    {
        self.inner.inner.stopped = true;
        self.inner.inner.stop(base);
    }

    /// Tears the handle down, as dropping the last owner does.
    pub fn close(&mut self, base: &mut Base)
        requires
            old(self).inner.inner.wf(),
            !old(self).inner.inner.in_callback,
            old(self).inner.inner.armed ==> old(base).armed_events > 0,
        ensures
            final(self).inner.inner == life_step(old(self).inner.inner, LifeOp::Teardown),
            final(self).inner.inner.wf(),
            *final(base) == (Base {
                armed_events: if old(self).inner.inner.armed {
                    (old(base).armed_events - 1) as u64
                } else {
                    old(base).armed_events
                },
                ..*old(base)
            }),
    {
        if self.inner.inner.ctx_present {
            finalize_wrapped_callback(&mut self.inner.inner);
        }
        base.event_del(&mut self.inner.inner);
    }
}

impl<T> Event<Remote<T>> {
    /// Wraps an event state under cross-task sharing.
    pub fn from_inner(inner: EventInner) -> (r: Self)
        ensures
            r.inner.inner == inner,
    {
        Event { inner: Remote { inner, _phantom: PhantomData } }
    }

    /// Whether the user closure is executing right now.
    pub fn in_callback(&self) -> (r: bool)
        ensures
            r == self.inner.inner.in_callback,
    {
        self.inner.inner.in_callback
    }

    /// Whether the event was asked to stop.
    pub fn stopped(&self) -> (r: bool)
        ensures
            r == self.inner.inner.stopped,
    {
        self.inner.inner.stopped
    }

    /// A non-owning back-reference for handing into the closure, so the
    /// closure never keeps a strong reference to its own container.
    pub fn downgrade(&self) -> (r: Event<RemoteWeak<T>>)
    {
        Event { inner: RemoteWeak { _phantom: PhantomData } }
    }

    /// Asks the event to stop.  Same contract as under the other
    /// disciplines: removal now, release deferred to teardown.
    pub fn stop(&mut self, base: &mut Base)
        requires
            old(self).inner.inner.armed ==> old(base).armed_events > 0,
        ensures
            final(self).inner.inner == life_step(old(self).inner.inner, LifeOp::Stop),
            *final(base) == (Base {
                armed_events: if old(self).inner.inner.armed {
                    (old(base).armed_events - 1) as u64
                } else {
                    old(base).armed_events
                },
                ..*old(base)
            }),
    {
        self.inner.inner.stopped = true;
        self.inner.inner.stop(base);
    }

    /// Tears the handle down, as dropping the last owner does.
    pub fn close(&mut self, base: &mut Base)
        requires
            old(self).inner.inner.wf(),
            !old(self).inner.inner.in_callback,
            old(self).inner.inner.armed ==> old(base).armed_events > 0,
        ensures
            final(self).inner.inner == life_step(old(self).inner.inner, LifeOp::Teardown),
            final(self).inner.inner.wf(),
            *final(base) == (Base {
                armed_events: if old(self).inner.inner.armed {
                    (old(base).armed_events - 1) as u64
                } else {
                    old(base).armed_events
                },
                ..*old(base)
            }),
    {
        if self.inner.inner.ctx_present {
            finalize_wrapped_callback(&mut self.inner.inner);
        }
        base.event_del(&mut self.inner.inner);
    }
}

/// Collects the parameters of an event before it is built.
#[derive(Clone, Copy, Debug, PartialEq, Eq)]
pub struct EventBuilder {
    /// The descriptor to watch, or `None` for a pure timer.
    pub fd: Option<i32>,
    /// The activation flags the event will be created with.
    pub flags: EventFlags,
    /// The timeout the event will be armed with, if any.
    pub timeout: Option<Span>,
}

impl EventBuilder {
    /// Starts a builder from the given parameters.
    pub fn new(fd: Option<i32>, flags: EventFlags, timeout: Option<Span>) -> (r: Self)
        ensures
            r == (EventBuilder { fd, flags, timeout }),
    {
        EventBuilder { fd, flags, timeout }
    }

    /// Turns the builder into a timer: a timer watches no descriptor.
    pub fn timer(self) -> (r: Self)
        ensures
            r.fd is None,
            r.flags == self.flags,
            r.timeout == self.timeout,
    {
        EventBuilder { fd: None, ..self }
    }
}

/// The arguments an event-kind policy hands to the user closure, mapped
/// from the raw descriptor and flag word the trampoline receives.
#[derive(Clone, Copy, Debug, PartialEq, Eq, Structural)]
pub enum CallbackArgs {
    /// A descriptor event's closure sees the descriptor and the flags
    /// that activated it.
    FdArgs { fd: i32, flags: EventFlags },
    /// A timer's closure sees neither: the raw descriptor is only the
    /// timer placeholder, so both arguments are masked.
    TimerArgs,
}

/// The argument-mapping policy of an event kind: how the raw arguments
/// of the native callback map to what the user closure is called with.
pub trait Exec {
    /// What the policy hands the closure for the given raw arguments.
    spec fn spec_exec(fd: i32, flags: EventFlags) -> CallbackArgs;

    /// Maps the trampoline's raw arguments to the closure's arguments.
    fn exec(fd: i32, flags: EventFlags) -> (r: CallbackArgs)
        ensures
            r == Self::spec_exec(fd, flags),
    ;
}

impl Exec for Fd {
    open spec fn spec_exec(fd: i32, flags: EventFlags) -> CallbackArgs {
        CallbackArgs::FdArgs { fd, flags }
    }

    fn exec(fd: i32, flags: EventFlags) -> (r: CallbackArgs) {
        CallbackArgs::FdArgs { fd, flags }
    }
}

impl Exec for Interval {
    open spec fn spec_exec(fd: i32, flags: EventFlags) -> CallbackArgs {
        CallbackArgs::TimerArgs
    }

    fn exec(fd: i32, flags: EventFlags) -> (r: CallbackArgs) {
        CallbackArgs::TimerArgs
    }
}

impl Exec for Oneshot {
    open spec fn spec_exec(fd: i32, flags: EventFlags) -> CallbackArgs {
        CallbackArgs::TimerArgs
    }

    fn exec(fd: i32, flags: EventFlags) -> (r: CallbackArgs) {
        CallbackArgs::TimerArgs
    }
}

/// Exposes the wrapped native event of a handle type.
pub trait AsRawEvent {
    /// The wrapped native event, for operations that need it directly.
    fn as_raw(&mut self) -> &mut EventInner;
}

/// A plain descriptor event outside the generic handle family, with an
/// optional finalizer recorded for its teardown.
#[derive(Debug, PartialEq, Eq)]
pub struct FdEvent {
    /// The state of the wrapped native event.
    pub inner: EventInner,
    /// Whether a finalizer was recorded for teardown.
    pub finalizer_set: bool,
}

impl FdEvent {
    /// Wraps an already-created native event.
    pub fn new_unchecked(inner: EventInner) -> (r: Self)
        ensures
            r.inner == inner,
            !r.finalizer_set,
    {
        FdEvent { inner, finalizer_set: false }
    }

    /// Records that a finalizer will run at teardown.
    pub fn set_finalizer(&mut self)
        ensures
            *final(self) == (FdEvent { finalizer_set: true, ..*old(self) }),
    {
        self.finalizer_set = true;
    }
}

impl AsRawEvent for FdEvent {
    fn as_raw(&mut self) -> &mut EventInner {
        &mut self.inner
    }
}

} // verus!
