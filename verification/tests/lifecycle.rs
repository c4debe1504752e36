use libevent_tokio::base::handle_wrapped_callback;
use libevent_tokio::base::finalize_wrapped_callback;
use libevent_tokio::base::Base;
use libevent_tokio::base::EventFlags;
use libevent_tokio::base::Span;
use libevent_tokio::event::CallbackArgs;
use libevent_tokio::event::Event;
use libevent_tokio::event::Exec;
use libevent_tokio::event::Fd;
use libevent_tokio::event::Interval;
use libevent_tokio::event::Oneshot;

#[test]
fn inactive_event_definitions() {
    let ev = Event::new(4, EventFlags::read(), Some(Span::new(2, 0)));
    assert_eq!(ev.inactive_fd(), Some(4));
    assert_eq!(ev.inactive_flags(), EventFlags::read());
    assert_eq!(ev.inactive_timeout(), Some(Span::new(2, 0)));

    let iv = Interval::new(Span::new(1, 500_000));
    assert_eq!(iv.inactive_fd(), None);
    assert!(iv.inactive_flags().is_persist());
    assert_eq!(iv.inactive_timeout(), Some(Span::new(1, 500_000)));

    let os = Oneshot::new(Span::new(0, 10));
    assert_eq!(os.inactive_fd(), None);
    assert_eq!(os.inactive_flags(), EventFlags::empty());
    assert_eq!(os.inactive_timeout(), Some(Span::new(0, 10)));
}

#[test]
fn spawn_arms_the_event() {
    let mut base = Base::new();
    let handle = base.spawn(Event::new(3, EventFlags::read().union(EventFlags::persist()), None));
    assert_eq!(base.armed_events, 1);
    assert!(handle.inner.inner.armed);
    assert!(handle.inner.inner.ctx_present);
    assert!(!handle.in_callback());
    assert!(!handle.stopped());
    assert_eq!(handle.inner.inner.fd, 3);
    assert_eq!(handle.inner.inner.freed, 0);
}

/// Explicit stop while idle, then teardown: the context is released
/// exactly once, by the teardown.
#[test]
fn stop_then_close_frees_once() {
    let mut base = Base::new();
    let mut handle = base.spawn(Event::new(3, EventFlags::read(), None));
    handle.stop(&mut base);
    assert!(handle.stopped());
    assert!(!handle.inner.inner.armed);
    assert_eq!(base.armed_events, 0);
    // The stop itself never releases the context.
    assert_eq!(handle.inner.inner.freed, 0);
    assert!(handle.inner.inner.ctx_present);
    handle.close(&mut base);
    assert_eq!(handle.inner.inner.freed, 1);
    assert!(!handle.inner.inner.ctx_present);
}

/// Idempotent removal safety: a second stop succeeds and changes nothing.
#[test]
fn stop_twice_is_a_no_op() {
    let mut base = Base::new();
    let mut handle = base.spawn_local(Event::new(6, EventFlags::write(), None));
    handle.stop(&mut base);
    let after_first = handle.inner.inner;
    let base_after_first = base.armed_events;
    handle.stop(&mut base);
    assert_eq!(handle.inner.inner, after_first);
    assert_eq!(base.armed_events, base_after_first);
}

/// Dropping a handle that is still armed releases the context exactly
/// once, the same way an explicit stop-then-teardown does.
#[test]
fn close_while_armed_frees_once() {
    let mut base = Base::new();
    let mut handle = base.spawn(Event::new(3, EventFlags::read(), None));
    handle.close(&mut base);
    assert_eq!(handle.inner.inner.freed, 1);
    assert!(!handle.inner.inner.armed);
    assert!(!handle.inner.inner.ctx_present);
    assert_eq!(base.armed_events, 0);
    // A second teardown finds no context and releases nothing further.
    handle.close(&mut base);
    assert_eq!(handle.inner.inner.freed, 1);
}

/// A closure that stops its own event mid-execution: the context is
/// released only after the closure returned, exactly once, and a later
/// teardown does not release it again.
#[test]
fn stop_from_inside_callback_frees_once_after_return() {
    let mut base = Base::new();
    let mut handle = base.spawn(Event::new(
        3,
        EventFlags::read().union(EventFlags::persist()),
        None,
    ));
    let freed_now = handle_wrapped_callback(&mut base, &mut handle.inner.inner, true);
    assert!(freed_now);
    assert!(!handle.in_callback());
    assert!(handle.stopped());
    assert_eq!(handle.inner.inner.freed, 1);
    assert!(!handle.inner.inner.ctx_present);
    assert_eq!(base.armed_events, 0);
    handle.close(&mut base);
    assert_eq!(handle.inner.inner.freed, 1);
}

/// A stop issued from outside before the callback: the event is removed,
/// and the release still happens exactly once, at teardown.
#[test]
fn stop_from_outside_then_close() {
    let mut base = Base::new();
    let mut handle = base.spawn_local(Event::new(5, EventFlags::read(), None));
    // The closure's back-reference never owns the event.
    let _weak = handle.downgrade();
    handle.stop(&mut base);
    handle.close(&mut base);
    assert_eq!(handle.inner.inner.freed, 1);
    handle.stop(&mut base);
    assert_eq!(handle.inner.inner.freed, 1);
}

/// A persistent event whose closure does not stop it stays registered
/// and keeps its context.
#[test]
fn persistent_event_survives_callback() {
    let mut base = Base::new();
    let mut handle = base.spawn(Interval::new(Span::new(1, 0)));
    let freed_now = handle_wrapped_callback(&mut base, &mut handle.inner.inner, false);
    assert!(!freed_now);
    assert!(handle.inner.inner.armed);
    assert!(handle.inner.inner.ctx_present);
    assert_eq!(handle.inner.inner.freed, 0);
    assert_eq!(base.armed_events, 1);
}

/// A one-shot event finalizes itself after its single invocation even
/// when nobody asked it to stop.
#[test]
fn oneshot_self_finalizes() {
    let mut base = Base::new();
    let mut handle = base.spawn(Oneshot::new(Span::new(0, 50)));
    let freed_now = handle_wrapped_callback(&mut base, &mut handle.inner.inner, false);
    assert!(freed_now);
    assert_eq!(handle.inner.inner.freed, 1);
    assert!(!handle.inner.inner.armed);
    assert!(!handle.inner.inner.ctx_present);
    assert_eq!(base.armed_events, 0);
}

/// The cross-task discipline behaves as the single-thread one: stop now,
/// release exactly once at teardown.
#[test]
fn shared_remote_stop_and_close() {
    let mut base = Base::new();
    let mut handle = base.spawn_shared(Event::new(4, EventFlags::read(), None));
    let _weak = handle.downgrade();
    assert!(handle.inner.inner.armed);
    assert!(!handle.in_callback());
    handle.stop(&mut base);
    assert!(handle.stopped());
    assert_eq!(handle.inner.inner.freed, 0);
    handle.close(&mut base);
    assert_eq!(handle.inner.inner.freed, 1);
    assert_eq!(base.armed_events, 0);
}

/// The argument-mapping policies: a descriptor event's closure sees the
/// descriptor and flags; timers see neither.
#[test]
fn callback_argument_mapping() {
    assert_eq!(
        <Fd as Exec>::exec(5, EventFlags::read()),
        CallbackArgs::FdArgs { fd: 5, flags: EventFlags::read() }
    );
    assert_eq!(<Interval as Exec>::exec(-1, EventFlags::empty()), CallbackArgs::TimerArgs);
    assert_eq!(<Oneshot as Exec>::exec(-1, EventFlags::empty()), CallbackArgs::TimerArgs);
}

/// The finalizer releases the context exactly once and clears the
/// context field.
#[test]
fn finalizer_releases_once() {
    let mut base = Base::new();
    let mut handle = base.spawn(Event::new(8, EventFlags::read(), None));
    handle.stop(&mut base);
    finalize_wrapped_callback(&mut handle.inner.inner);
    assert_eq!(handle.inner.inner.freed, 1);
    assert!(!handle.inner.inner.ctx_present);
}
