use libevent_tokio::base::Base;
use libevent_tokio::base::Span;
use libevent_tokio::base::EV_READ;
use libevent_tokio::base::EV_WRITE;
use libevent_tokio::tokio_backend::backend::wait_kind;
use libevent_tokio::tokio_backend::backend::DispatchOutcome;
use libevent_tokio::tokio_backend::backend::TokioBackend;
use libevent_tokio::tokio_backend::backend::WaitKind;
use libevent_tokio::tokio_backend::io::IoType;
use libevent_tokio::tokio_backend::runtime::YieldFuture;

#[test]
fn wait_kind_classification() {
    assert_eq!(wait_kind(Some(Span::new(0, 0))), WaitKind::Yield);
    assert_eq!(wait_kind(Some(Span::new(0, 1))), WaitKind::Timed(Span::new(0, 1)));
    assert_eq!(wait_kind(Some(Span::new(3, 0))), WaitKind::Timed(Span::new(3, 0)));
    assert_eq!(wait_kind(None), WaitKind::Forever);
}

#[test]
fn yield_future_is_ready_on_third_poll() {
    let mut f = YieldFuture::new();
    assert!(!f.poll_once());
    assert!(!f.poll_once());
    assert!(f.poll_once());
    assert!(f.poll_once());
    assert_eq!(YieldFuture::default(), YieldFuture::new());
}

/// Dispatch ordering for a bounded wait: a readiness marked active before
/// the dispatch call is in the reactor's active set when it returns, and
/// the pending notification is what ended the wait.
#[test]
fn readiness_before_timed_dispatch_is_visible() {
    let mut base = Base::new();
    let mut backend = TokioBackend::new();
    assert_eq!(backend.add_io(7, IoType::Read, true), 0);
    backend.readiness_io(&mut base, 7, EV_READ);
    let outcome = backend.dispatch(Some(Span::new(1, 0)));
    assert_eq!(outcome, DispatchOutcome::Notified);
    assert_eq!(base.active.io_active_mask(7), EV_READ);
}

/// The same for a zero timeout: the tick returns at once and the
/// activation is still visible.
#[test]
fn readiness_before_zero_dispatch_is_visible() {
    let mut base = Base::new();
    let mut backend = TokioBackend::new();
    assert_eq!(backend.add_io(7, IoType::ReadWrite, true), 0);
    backend.readiness_io(&mut base, 7, EV_WRITE);
    let outcome = backend.dispatch(Some(Span::new(0, 0)));
    assert_eq!(outcome, DispatchOutcome::Yielded);
    assert_eq!(base.active.io_active_mask(7), EV_WRITE);
}

/// And for an unbounded wait, which returns only on the notification.
#[test]
fn readiness_before_unbounded_dispatch_is_visible() {
    let mut base = Base::new();
    let mut backend = TokioBackend::new();
    assert_eq!(backend.add_io(9, IoType::Read, true), 0);
    backend.readiness_io(&mut base, 9, EV_READ);
    let outcome = backend.dispatch(None);
    assert_eq!(outcome, DispatchOutcome::Notified);
    assert_eq!(base.active.io_active_mask(9), EV_READ);
}

/// Two activations coalesce into one level-triggered wake-up: one
/// dispatch consumes the notification, and both resources are active.
#[test]
fn activations_coalesce_into_one_wakeup() {
    let mut base = Base::new();
    let mut backend = TokioBackend::new();
    assert_eq!(backend.add_io(3, IoType::Read, true), 0);
    assert_eq!(backend.add_signal(2, true), 0);
    backend.readiness_io(&mut base, 3, EV_READ);
    backend.readiness_signal(&mut base, 2);
    let outcome = backend.dispatch(Some(Span::new(1, 0)));
    assert_eq!(outcome, DispatchOutcome::Notified);
    assert_eq!(base.active.io_active_mask(3), EV_READ);
    assert!(base.active.signal_is_active(2));
    // The notification is consumed: nothing new, so the next wait times out.
    assert_eq!(backend.dispatch(Some(Span::new(1, 0))), DispatchOutcome::TimedOut);
}

/// A timed dispatch with nothing pending times out; that is no error.
#[test]
fn dispatch_without_readiness_times_out() {
    let mut backend = TokioBackend::new();
    assert_eq!(backend.dispatch(Some(Span::new(0, 500))), DispatchOutcome::TimedOut);
    assert_eq!(backend.dispatch(Some(Span::new(0, 0))), DispatchOutcome::Yielded);
}

/// The end-to-end scenario: register read interest, let the peer make
/// the descriptor readable, dispatch with a bound of one second, and see
/// the read activation on return; then delete the registration and see
/// its background task joined before the delete returned.
#[test]
fn end_to_end_read_then_del() {
    let mut base = Base::new();
    let mut backend = TokioBackend::new();

    assert_eq!(backend.add_io(11, IoType::Read, true), 0);
    // The peer writes one byte; the watcher observes read readiness.
    backend.readiness_io(&mut base, 11, EV_READ);

    let outcome = backend.dispatch(Some(Span::new(1, 0)));
    assert_eq!(outcome, DispatchOutcome::Notified);
    assert_eq!(base.active.io_active_mask(11), EV_READ);

    assert_eq!(backend.del_io(11, IoType::Read), 0);
    assert!(backend.io_map.lookup(11).is_none());
    // The watcher task was joined, exactly once, before del returned.
    assert_eq!(backend.joined_io, vec![0u64]);
}

/// Deleting descriptors and signals that were never registered reports
/// failure and mutates nothing.
#[test]
fn backend_del_unknown_fails() {
    let mut backend = TokioBackend::new();
    assert_eq!(backend.del_io(5, IoType::Read), -1);
    assert_eq!(backend.del_signal(5), -1);
    assert!(backend.joined_io.is_empty());
    assert!(backend.joined_signal.is_empty());
}

/// Tearing the backend down cancels and joins everything and empties the
/// maps.
#[test]
fn dealloc_empties_the_backend() {
    let mut base = Base::new();
    let mut backend = TokioBackend::new();
    assert_eq!(backend.add_io(3, IoType::Read, true), 0);
    assert_eq!(backend.add_signal(2, true), 0);
    backend.readiness_io(&mut base, 3, EV_READ);
    backend.dealloc();
    assert!(backend.io_map.lookup(3).is_none());
    assert!(backend.signal_map.lookup(2).is_none());
    assert_eq!(backend.dispatch(Some(Span::new(1, 0))), DispatchOutcome::TimedOut);
}
