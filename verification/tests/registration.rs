use libevent_tokio::base::EV_READ;
use libevent_tokio::base::EV_WRITE;
use libevent_tokio::tokio_backend::io::io_task_step;
use libevent_tokio::tokio_backend::io::AddOutcome;
use libevent_tokio::tokio_backend::io::IoMap;
use libevent_tokio::tokio_backend::io::IoType;
use libevent_tokio::tokio_backend::io::RegError;
use libevent_tokio::tokio_backend::io::TaskEvent;
use libevent_tokio::tokio_backend::io::TaskStep;
use libevent_tokio::tokio_backend::signal::signal_task_step;
use libevent_tokio::tokio_backend::signal::SignalEvent;
use libevent_tokio::tokio_backend::signal::SignalMap;
use libevent_tokio::tokio_backend::signal::SignalStep;

#[test]
fn io_type_from_events() {
    assert_eq!(IoType::from_events(EV_READ), Some(IoType::Read));
    assert_eq!(IoType::from_events(EV_WRITE), Some(IoType::Write));
    assert_eq!(IoType::from_events(EV_READ | EV_WRITE), Some(IoType::ReadWrite));
    assert_eq!(IoType::from_events(0), None);
    // Other bits do not make descriptor interest by themselves.
    assert_eq!(IoType::from_events(0x08), None);
}

#[test]
fn io_type_directions() {
    assert!(IoType::Read.is_read());
    assert!(!IoType::Read.is_write());
    assert!(!IoType::Write.is_read());
    assert!(IoType::Write.is_write());
    assert!(IoType::ReadWrite.is_read());
    assert!(IoType::ReadWrite.is_write());
}

/// Reference counting on one descriptor: the entry lives exactly while
/// the sum of interest counts is positive, one task serves the whole
/// sequence, and it is handed back exactly once, at the second delete.
#[test]
fn refcount_add_add_del_del() {
    let mut map = IoMap::new();
    assert_eq!(map.add(5, IoType::Read, true), Ok(AddOutcome::Spawned(0)));
    assert_eq!(map.add(5, IoType::Write, true), Ok(AddOutcome::Reused));
    let e = map.lookup(5).unwrap();
    assert_eq!((e.nread, e.nwrite, e.task), (1, 1, 0));

    assert_eq!(map.del(5, IoType::Read), Ok(None));
    assert!(map.lookup(5).is_some());

    assert_eq!(map.del(5, IoType::Write), Ok(Some(0)));
    assert!(map.lookup(5).is_none());
}

/// A second registration on a tracked key raises counts instead of
/// spawning a duplicate task, and a later fresh key gets a fresh id.
#[test]
fn tasks_are_fresh_per_key() {
    let mut map = IoMap::new();
    assert_eq!(map.add(3, IoType::ReadWrite, true), Ok(AddOutcome::Spawned(0)));
    assert_eq!(map.add(3, IoType::Read, true), Ok(AddOutcome::Reused));
    assert_eq!(map.add(4, IoType::Write, true), Ok(AddOutcome::Spawned(1)));
    assert_eq!(map.del(4, IoType::Write), Ok(Some(1)));
    // Re-registering a removed key spawns a task the map never used.
    assert_eq!(map.add(4, IoType::Read, true), Ok(AddOutcome::Spawned(2)));
}

/// Idempotent removal safety: deleting an unregistered key is an error
/// and mutates nothing.
#[test]
fn del_unknown_key_is_not_found() {
    let mut map = IoMap::new();
    assert_eq!(map.add(9, IoType::Read, true), Ok(AddOutcome::Spawned(0)));
    assert_eq!(map.del(8, IoType::Read), Err(RegError::NotFound));
    let e = map.lookup(9).unwrap();
    assert_eq!((e.nread, e.nwrite), (1, 0));
    assert!(map.lookup(8).is_none());
}

/// Removing a direction that was never added is an error, not a silent
/// count underflow.
#[test]
fn del_uncounted_direction_is_error() {
    let mut map = IoMap::new();
    assert_eq!(map.add(9, IoType::Read, true), Ok(AddOutcome::Spawned(0)));
    assert_eq!(map.del(9, IoType::Write), Err(RegError::NoSuchInterest));
    assert_eq!(map.del(9, IoType::ReadWrite), Err(RegError::NoSuchInterest));
    let e = map.lookup(9).unwrap();
    assert_eq!((e.nread, e.nwrite), (1, 0));
}

/// A resource that cannot be watched is reported and nothing is tracked.
#[test]
fn add_unwatchable_fails() {
    let mut map = IoMap::new();
    assert_eq!(map.add(7, IoType::Read, false), Err(RegError::WatchFailed));
    assert!(map.lookup(7).is_none());
    // An already-tracked key needs no new watcher, so it still succeeds.
    assert_eq!(map.add(7, IoType::Read, true), Ok(AddOutcome::Spawned(0)));
    assert_eq!(map.add(7, IoType::Write, false), Ok(AddOutcome::Reused));
}

#[test]
fn signal_refcount() {
    let mut map = SignalMap::new();
    assert_eq!(map.add(2, true), Ok(AddOutcome::Spawned(0)));
    assert_eq!(map.add(2, true), Ok(AddOutcome::Reused));
    assert_eq!(map.lookup(2).unwrap().armed, 2);
    assert_eq!(map.del(2), Ok(None));
    assert_eq!(map.del(2), Ok(Some(0)));
    assert!(map.lookup(2).is_none());
    assert_eq!(map.del(2), Err(RegError::NotFound));
    assert_eq!(map.add(15, false), Err(RegError::WatchFailed));
    assert!(map.lookup(15).is_none());
}

#[test]
fn io_task_decisions() {
    // A change of interest exits the task exactly when nothing is counted.
    assert_eq!(io_task_step(0, 0, TaskEvent::InterestChanged), TaskStep::Exit);
    assert_eq!(io_task_step(1, 0, TaskEvent::InterestChanged), TaskStep::Idle);
    // Readiness activates the direction that fired, while it is counted.
    assert_eq!(io_task_step(1, 0, TaskEvent::ReadReady), TaskStep::Activate(EV_READ));
    assert_eq!(io_task_step(0, 1, TaskEvent::ReadReady), TaskStep::Idle);
    assert_eq!(io_task_step(0, 2, TaskEvent::WriteReady), TaskStep::Activate(EV_WRITE));
    assert_eq!(io_task_step(1, 0, TaskEvent::WriteReady), TaskStep::Idle);
    // A fatal watch error terminates the task.
    assert_eq!(io_task_step(1, 1, TaskEvent::WatchError), TaskStep::Exit);
}

#[test]
fn signal_task_decisions() {
    assert_eq!(signal_task_step(SignalEvent::Delivered), SignalStep::Activate);
    assert_eq!(signal_task_step(SignalEvent::StreamClosed), SignalStep::Exit);
    assert_eq!(signal_task_step(SignalEvent::Cancelled), SignalStep::Exit);
}
