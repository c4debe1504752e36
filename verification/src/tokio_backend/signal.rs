//! The registration map for signal resources, and the decisions the
//! per-signal listener task takes.
//!
//! One listener task serves each distinct signal number; overlapping
//! registrations are coalesced into an armed count.  The listener is torn
//! down exactly when the last registration departs, and its task id is
//! handed back exactly once, to join it before returning.

use vstd::prelude::*;

use crate::tokio_backend::io::AddOutcome;
use crate::tokio_backend::io::RegError;
use std::collections::HashMap;

verus! {

broadcast use vstd::std_specs::hash::group_hash_axioms;

/// The registration entry for one signal number: how many registrations
/// keep it armed, and the id of the listener task serving it.
#[derive(Clone, Copy, Debug, PartialEq, Eq, Structural)]
pub struct SigEntry {
    /// How many registrations keep the signal armed.
    pub armed: u32,
    /// The id of the listener task serving this signal.
    pub task: u64,
}

/// Tracks one listener task per registered signal number,
/// reference-counting overlapping registrations.
pub struct SignalMap {
    inner: HashMap<i32, SigEntry>,
    next_task: u64,
}

impl SignalMap {
    /// The registered signal numbers and their entries.
    pub closed spec fn entries(self) -> Map<i32, SigEntry> {
        self.inner@
    }

    /// The task id the map would hand to the next listener it spawns.
    pub closed spec fn fresh_task(self) -> u64 {
        self.next_task
    }

    /// Every tracked entry is armed, and every handed out task id lies
    /// below the next fresh one.
    pub open spec fn wf(self) -> bool {
        forall|signum: i32| #[trigger] self.entries().contains_key(signum) ==> {
            &&& self.entries()[signum].armed > 0
            &&& self.entries()[signum].task < self.fresh_task()
        }
    }

    /// An empty map.
    pub fn new() -> (r: Self)
        ensures
            r.entries() == Map::<i32, SigEntry>::empty(),
            r.fresh_task() == 0u64,
            r.wf(),
    {
        SignalMap { inner: HashMap::new(), next_task: 0 }
    }

    /// The entry registered for `signum`, if one is.
    pub fn lookup(&self, signum: i32) -> (r: Option<SigEntry>)
        ensures
            r == (if self.entries().contains_key(signum) {
                Some(self.entries()[signum])
            } else {
                None::<SigEntry>
            }),
    {
        match self.inner.get(&signum) {
            Some(e) => Some(*e),
            None => None,
        }
    }

    /// Registers interest in a signal number.  A number already listened
    /// for has its armed count raised; a new one gets a fresh listener
    /// task, provided a signal stream could be installed at all --
    /// `watch_ok` carries the outcome of that attempt.
    pub fn add(&mut self, signum: i32, watch_ok: bool) -> (r: Result<AddOutcome, RegError>)
        requires
            old(self).wf(),
            old(self).fresh_task() < u64::MAX,
            old(self).entries().contains_key(signum) ==> old(self).entries()[signum].armed
                < u32::MAX,
        ensures
            final(self).wf(),
            old(self).entries().contains_key(signum) ==> {
                &&& r == Ok::<AddOutcome, RegError>(AddOutcome::Reused)
                &&& final(self).entries() == old(self).entries().insert(
                    signum,
                    SigEntry {
                        armed: (old(self).entries()[signum].armed + 1) as u32,
                        task: old(self).entries()[signum].task,
                    },
                )
                &&& final(self).fresh_task() == old(self).fresh_task()
            },
            !old(self).entries().contains_key(signum) && watch_ok ==> {
                &&& r == Ok::<AddOutcome, RegError>(AddOutcome::Spawned(old(self).fresh_task()))
                &&& final(self).entries() == old(self).entries().insert(
                    signum,
                    SigEntry { armed: 1u32, task: old(self).fresh_task() },
                )
                &&& final(self).fresh_task() == old(self).fresh_task() + 1
            },
            !old(self).entries().contains_key(signum) && !watch_ok ==> {
                &&& r == Err::<AddOutcome, RegError>(RegError::WatchFailed)
                &&& final(self).entries() == old(self).entries()
                &&& final(self).fresh_task() == old(self).fresh_task()
            },
    {
        let found: Option<SigEntry> = match self.inner.get(&signum) {
            Some(e) => Some(*e),
            None => None,
        };
        match found {
            Some(e) => {
                self.inner.insert(signum, SigEntry { armed: e.armed + 1, task: e.task });
                Ok(AddOutcome::Reused)
            },
            None => {
                if watch_ok {
                    let task = self.next_task;
                    self.next_task = self.next_task + 1;
                    self.inner.insert(signum, SigEntry { armed: 1, task });
                    Ok(AddOutcome::Spawned(task))
                } else {
                    Err(RegError::WatchFailed)
                }
            },
        }
    }

    /// Removes one registration from a signal number.  A number never
    /// registered is an error and mutates nothing.  When and only when
    /// the last registration departs, the entry is removed and the
    /// listener's task id is handed back for the caller to join.
    pub fn del(&mut self, signum: i32) -> (r: Result<Option<u64>, RegError>)
        requires
            old(self).wf(),
        ensures
            final(self).wf(),
            final(self).fresh_task() == old(self).fresh_task(),
            !old(self).entries().contains_key(signum) ==> {
                &&& r == Err::<Option<u64>, RegError>(RegError::NotFound)
                &&& final(self).entries() == old(self).entries()
            },
            old(self).entries().contains_key(signum) ==> {
                let e = old(self).entries()[signum];
                if e.armed == 1 {
                    &&& r == Ok::<Option<u64>, RegError>(Some(e.task))
                    &&& final(self).entries() == old(self).entries().remove(signum)
                } else {
                    &&& r == Ok::<Option<u64>, RegError>(None)
                    &&& final(self).entries() == old(self).entries().insert(
                        signum,
                        SigEntry { armed: (e.armed - 1) as u32, task: e.task },
                    )
                }
            },
    {
        let found: Option<SigEntry> = match self.inner.get(&signum) {
            Some(e) => Some(*e),
            None => None,
        };
        match found {
            None => Err(RegError::NotFound),
            Some(e) => {
                proof {
                    assert(self.entries().contains_key(signum));
                    assert(e.armed > 0);
                }
                if e.armed == 1 {
                    self.inner.remove(&signum);
                    Ok(Some(e.task))
                } else {
                    self.inner.insert(signum, SigEntry { armed: e.armed - 1, task: e.task });
                    Ok(None)
                }
            },
        }
    }
}

/// What woke the listener task serving one signal number.
#[derive(Clone, Copy, Debug, PartialEq, Eq, Structural)]
pub enum SignalEvent {
    /// The signal was delivered.
    Delivered,
    /// The signal stream closed; the task cannot listen any further.
    StreamClosed,
    /// The registration departed and cancelled the task.
    Cancelled,
}

/// What the listener task does next.
#[derive(Clone, Copy, Debug, PartialEq, Eq, Structural)]
pub enum SignalStep {
    /// Mark the signal active, notify the dispatcher once, keep going.
    Activate,
    /// Terminate the task.
    Exit,
}

/// The decision one loop turn of the listener task takes.
pub open spec fn spec_signal_task_step(event: SignalEvent) -> SignalStep {
    match event {
        SignalEvent::Delivered => SignalStep::Activate,
        SignalEvent::StreamClosed => SignalStep::Exit,
        SignalEvent::Cancelled => SignalStep::Exit,
    }
}

/// Decides one loop turn of the listener task: a delivery is propagated
/// into the reactor, and the task exits on cancellation, or when the
/// stream reports that it can deliver nothing further.
pub fn signal_task_step(event: SignalEvent) -> (r: SignalStep)
    ensures
        r == spec_signal_task_step(event),
{
    match event {
        SignalEvent::Delivered => SignalStep::Activate,
        SignalEvent::StreamClosed => SignalStep::Exit,
        SignalEvent::Cancelled => SignalStep::Exit,
    }
}

} // verus!
