use libevent_tokio::base::event_is_read;
use libevent_tokio::base::event_is_signal;
use libevent_tokio::base::event_is_write;
use libevent_tokio::base::to_timeval;
use libevent_tokio::base::EventFlags;
use libevent_tokio::base::LoopFlags;
use libevent_tokio::base::Span;
use libevent_tokio::base::EV_ALL;
use libevent_tokio::base::EV_PERSIST;
use libevent_tokio::base::EV_READ;
use libevent_tokio::base::EV_SIGNAL;
use libevent_tokio::base::EV_TIMEOUT;
use libevent_tokio::base::EV_WRITE;
use libevent_tokio::base::EVLOOP_NONBLOCK;
use libevent_tokio::base::EVLOOP_ONCE;

#[test]
fn event_flag_constructors() {
    assert_eq!(EventFlags::empty().bits(), 0);
    assert_eq!(EventFlags::read().bits(), EV_READ);
    assert_eq!(EventFlags::write().bits(), EV_WRITE);
    assert_eq!(EventFlags::signal().bits(), EV_SIGNAL);
    assert_eq!(EventFlags::persist().bits(), EV_PERSIST);
}

#[test]
fn event_flag_queries() {
    let rw = EventFlags::read().union(EventFlags::write());
    assert_eq!(rw.bits(), EV_READ | EV_WRITE);
    assert!(rw.is_read());
    assert!(rw.is_write());
    assert!(!rw.is_signal());
    assert!(!rw.is_persist());
    assert!(rw.contains(EventFlags::read()));
    assert!(rw.contains(EventFlags::write()));
    assert!(!rw.contains(EventFlags::persist()));
    assert!(rw.contains(EventFlags::empty()));
}

#[test]
fn event_flag_truncation() {
    // Bits outside the defined set are dropped.
    assert_eq!(EventFlags::from_bits_truncate(0xffff_ff00 | EV_TIMEOUT).bits(), EV_TIMEOUT);
    assert_eq!(EventFlags::from_bits_truncate(EV_ALL).bits(), EV_ALL);
}

#[test]
fn loop_flag_values() {
    assert_eq!(LoopFlags::empty().bits(), 0);
    assert_eq!(LoopFlags::once().bits(), EVLOOP_ONCE);
    assert_eq!(LoopFlags::nonblock().bits(), EVLOOP_NONBLOCK);
    assert_eq!(LoopFlags::from_bits_truncate(0xff).bits(), 0x07);
}

#[test]
fn raw_flag_tests() {
    assert!(event_is_read(EV_READ | EV_PERSIST));
    assert!(!event_is_read(EV_WRITE));
    assert!(event_is_write(EV_WRITE | EV_READ));
    assert!(!event_is_write(EV_SIGNAL));
    assert!(event_is_signal(EV_SIGNAL));
    assert!(!event_is_signal(EV_READ | EV_WRITE));
}

#[test]
fn span_and_timeval() {
    let d = Span::new(3, 250_000);
    assert!(!d.is_zero());
    assert!(Span::new(0, 0).is_zero());
    let tv = to_timeval(d);
    assert_eq!(tv.tv_sec, 3);
    assert_eq!(tv.tv_usec, 250_000);
}
