//! The registration map for descriptor resources, and the decisions the
//! per-descriptor readiness task takes.
//!
//! One watcher task serves each distinct descriptor; overlapping
//! registrations on the same descriptor are coalesced into reference
//! counts per direction.  The watcher is torn down exactly when the last
//! interest departs, and the caller is handed its task id exactly once,
//! to join it before returning.

use vstd::prelude::*;

use crate::base::EV_READ;
use crate::base::EV_WRITE;
use std::collections::HashMap;

verus! {

broadcast use vstd::std_specs::hash::group_hash_axioms;

/// Errors the registration maps report.
#[derive(Clone, Copy, Debug, PartialEq, Eq, Structural)]
pub enum RegError {
    /// The key was never registered.
    NotFound,
    /// The key is registered, but not for the interest being removed.
    NoSuchInterest,
    /// The resource cannot be watched.
    WatchFailed,
}

/// The direction of interest in a descriptor.
#[derive(Clone, Copy, Debug, PartialEq, Eq, Structural)]
pub enum IoType {
    /// Read interest alone.
    Read,
    /// Both read and write interest.
    ReadWrite,
    /// Write interest alone.
    Write,
}

impl IoType {
    /// Whether the interest covers reading.
    pub open spec fn spec_is_read(self) -> bool {
        match self {
            IoType::Read => true,
            IoType::ReadWrite => true,
            IoType::Write => false,
        }
    }

    /// Whether the interest covers writing.
    pub open spec fn spec_is_write(self) -> bool {
        match self {
            IoType::Read => false,
            IoType::ReadWrite => true,
            IoType::Write => true,
        }
    }

    /// Classifies a raw flag word: the read and write bits decide the
    /// interest, and a word with neither names no descriptor interest.
    pub fn from_events(events: u32) -> (r: Option<IoType>)
        ensures
            ({
                let is_read = events & EV_READ != 0u32;
                let is_write = events & EV_WRITE != 0u32;
                r == (if is_read && is_write {
                    Some(IoType::ReadWrite)
                } else if is_read {
                    Some(IoType::Read)
                } else if is_write {
                    Some(IoType::Write)
                } else {
                    None::<IoType>
                })
            }),
    {
        let is_read = events & EV_READ != 0;
        let is_write = events & EV_WRITE != 0;
        if is_read && is_write {
            Some(IoType::ReadWrite)
        } else if is_read {
            Some(IoType::Read)
        } else if is_write {
            Some(IoType::Write)
        } else {
            None
        }
    }

    /// Whether the interest covers reading.
    pub fn is_read(&self) -> (r: bool)
        ensures
            r == self.spec_is_read(),
    {
        match self {
            IoType::Read => true,
            IoType::ReadWrite => true,
            IoType::Write => false,
        }
    }

    /// Whether the interest covers writing.
    pub fn is_write(&self) -> (r: bool)
        ensures
            r == self.spec_is_write(),
    {
        match self {
            IoType::Read => false,
            IoType::ReadWrite => true,
            IoType::Write => true,
        }
    }
}

/// The registration entry for one descriptor: a reference count per
/// direction and the id of the watcher task serving the descriptor.
#[derive(Clone, Copy, Debug, PartialEq, Eq, Structural)]
pub struct IoEntry {
    /// How many registrations want to read.
    pub nread: u32,
    /// How many registrations want to write.
    pub nwrite: u32,
    /// The id of the watcher task serving this descriptor.
    pub task: u64,
}

/// What an `add` call did to the map.
#[derive(Clone, Copy, Debug, PartialEq, Eq, Structural)]
pub enum AddOutcome {
    /// The descriptor was already watched; its counts were raised.
    Reused,
    /// A watcher task with this id was spawned for the descriptor.
    Spawned(u64),
}

/// The entry with the counts of the given interest raised by one.
pub open spec fn spec_bump(e: IoEntry, io_type: IoType) -> IoEntry {
    IoEntry {
        nread: if io_type.spec_is_read() {
            (e.nread + 1) as u32
        } else {
            e.nread
        },
        nwrite: if io_type.spec_is_write() {
            (e.nwrite + 1) as u32
        } else {
            e.nwrite
        },
        task: e.task,
    }
}

/// Whether every direction of the given interest is currently counted.
pub open spec fn spec_can_drop(e: IoEntry, io_type: IoType) -> bool {
    &&& io_type.spec_is_read() ==> e.nread > 0
    &&& io_type.spec_is_write() ==> e.nwrite > 0
}

/// The entry with the counts of the given interest lowered by one.
pub open spec fn spec_drop(e: IoEntry, io_type: IoType) -> IoEntry {
    IoEntry {
        nread: if io_type.spec_is_read() {
            (e.nread - 1) as u32
        } else {
            e.nread
        },
        nwrite: if io_type.spec_is_write() {
            (e.nwrite - 1) as u32
        } else {
            e.nwrite
        },
        task: e.task,
    }
}

/// The entry a fresh registration creates.
pub open spec fn spec_initial_entry(io_type: IoType, task: u64) -> IoEntry {
    IoEntry {
        nread: if io_type.spec_is_read() {
            1u32
        } else {
            0u32
        },
        nwrite: if io_type.spec_is_write() {
            1u32
        } else {
            0u32
        },
        task,
    }
}

/// Tracks one watcher task per watched descriptor, reference-counting
/// overlapping registrations.
pub struct IoMap {
    inner: HashMap<i32, IoEntry>,
    next_task: u64,
}

impl IoMap {
    /// The registered descriptors and their entries.
    pub closed spec fn entries(self) -> Map<i32, IoEntry> {
        self.inner@
    }

    /// The task id the map would hand to the next watcher it spawns.
    pub closed spec fn fresh_task(self) -> u64 {
        self.next_task
    }

    /// Every tracked entry holds at least one interest, and every handed
    /// out task id lies below the next fresh one.
    pub open spec fn wf(self) -> bool {
        forall|fd: i32| #[trigger] self.entries().contains_key(fd) ==> {
            &&& self.entries()[fd].nread + self.entries()[fd].nwrite > 0
            &&& self.entries()[fd].task < self.fresh_task()
        }
    }

    /// An empty map.
    pub fn new() -> (r: Self)
        ensures
            r.entries() == Map::<i32, IoEntry>::empty(),
            r.fresh_task() == 0u64,
            r.wf(),
    {
        IoMap { inner: HashMap::new(), next_task: 0 }
    }

    /// The entry registered for `fd`, if one is.
    pub fn lookup(&self, fd: i32) -> (r: Option<IoEntry>)
        ensures
            r == (if self.entries().contains_key(fd) {
                Some(self.entries()[fd])
            } else {
                None::<IoEntry>
            }),
    {
        match self.inner.get(&fd) {
            Some(e) => Some(*e),
            None => None,
        }
    }

    /// Registers interest in a descriptor.  A descriptor already watched
    /// has its counts raised and its running watcher keeps serving it; a
    /// new descriptor gets a fresh watcher task, provided the resource
    /// could be watched at all -- `watch_ok` carries the outcome of that
    /// attempt, which only a fresh registration needs.
    pub fn add(&mut self, fd: i32, io_type: IoType, watch_ok: bool) -> (r: Result<
        AddOutcome,
        RegError,
    >)
        requires
            old(self).wf(),
            old(self).fresh_task() < u64::MAX,
            old(self).entries().contains_key(fd) ==> old(self).entries()[fd].nread < u32::MAX
                && old(self).entries()[fd].nwrite < u32::MAX,
        ensures
            final(self).wf(),
            old(self).entries().contains_key(fd) ==> {
                &&& r == Ok::<AddOutcome, RegError>(AddOutcome::Reused)
                &&& final(self).entries() == old(self).entries().insert(
                    fd,
                    spec_bump(old(self).entries()[fd], io_type),
                )
                &&& final(self).fresh_task() == old(self).fresh_task()
            },
            !old(self).entries().contains_key(fd) && watch_ok ==> {
                &&& r == Ok::<AddOutcome, RegError>(AddOutcome::Spawned(old(self).fresh_task()))
                &&& final(self).entries() == old(self).entries().insert(
                    fd,
                    spec_initial_entry(io_type, old(self).fresh_task()),
                )
                &&& final(self).fresh_task() == old(self).fresh_task() + 1
            },
            !old(self).entries().contains_key(fd) && !watch_ok ==> {
                &&& r == Err::<AddOutcome, RegError>(RegError::WatchFailed)
                &&& final(self).entries() == old(self).entries()
                &&& final(self).fresh_task() == old(self).fresh_task()
            },
    {
        let found: Option<IoEntry> = match self.inner.get(&fd) {
            Some(e) => Some(*e),
            None => None,
        };
        match found {
            Some(e) => {
                let mut bumped = e;
                if io_type.is_read() {
                    bumped.nread = bumped.nread + 1;
                }
                if io_type.is_write() {
                    bumped.nwrite = bumped.nwrite + 1;
                }
                self.inner.insert(fd, bumped);
                Ok(AddOutcome::Reused)
            },
            None => {
                if watch_ok {
                    let task = self.next_task;
                    self.next_task = self.next_task + 1;
                    let entry = IoEntry {
                        nread: if io_type.is_read() {
                            1
                        } else {
                            0
                        },
                        nwrite: if io_type.is_write() {
                            1
                        } else {
                            0
                        },
                        task,
                    };
                    self.inner.insert(fd, entry);
                    Ok(AddOutcome::Spawned(task))
                } else {
                    Err(RegError::WatchFailed)
                }
            },
        }
    }

    /// Removes one interest from a descriptor.  A key never registered is
    /// an error and mutates nothing, as is removing a direction that was
    /// never added.  When and only when the last interest departs, the
    /// entry is removed and the watcher's task id is handed back for the
    /// caller to join.
    pub fn del(&mut self, fd: i32, io_type: IoType) -> (r: Result<Option<u64>, RegError>)
        requires
            old(self).wf(),
        ensures
            final(self).wf(),
            final(self).fresh_task() == old(self).fresh_task(),
            !old(self).entries().contains_key(fd) ==> {
                &&& r == Err::<Option<u64>, RegError>(RegError::NotFound)
                &&& final(self).entries() == old(self).entries()
            },
            old(self).entries().contains_key(fd) && !spec_can_drop(
                old(self).entries()[fd],
                io_type,
            ) ==> {
                &&& r == Err::<Option<u64>, RegError>(RegError::NoSuchInterest)
                &&& final(self).entries() == old(self).entries()
            },
            old(self).entries().contains_key(fd) && spec_can_drop(
                old(self).entries()[fd],
                io_type,
            ) ==> {
                let lowered = spec_drop(old(self).entries()[fd], io_type);
                if lowered.nread == 0 && lowered.nwrite == 0 {
                    &&& r == Ok::<Option<u64>, RegError>(Some(old(self).entries()[fd].task))
                    &&& final(self).entries() == old(self).entries().remove(fd)
                } else {
                    &&& r == Ok::<Option<u64>, RegError>(None)
                    &&& final(self).entries() == old(self).entries().insert(fd, lowered)
                }
            },
    {
        let found: Option<IoEntry> = match self.inner.get(&fd) {
            Some(e) => Some(*e),
            None => None,
        };
        match found {
            None => Err(RegError::NotFound),
            Some(e) => {
                if (io_type.is_read() && e.nread == 0) || (io_type.is_write() && e.nwrite == 0) {
                    return Err(RegError::NoSuchInterest);
                }
                let mut lowered = e;
                if io_type.is_read() {
                    lowered.nread = lowered.nread - 1;
                }
                if io_type.is_write() {
                    lowered.nwrite = lowered.nwrite - 1;
                }
                if lowered.nread == 0 && lowered.nwrite == 0 {
                    self.inner.remove(&fd);
                    Ok(Some(e.task))
                } else {
                    self.inner.insert(fd, lowered);
                    Ok(None)
                }
            },
        }
    }
}

/// What woke the watcher task serving one descriptor.
#[derive(Clone, Copy, Debug, PartialEq, Eq, Structural)]
pub enum TaskEvent {
    /// The interest counts changed, or the registration departed.
    InterestChanged,
    /// The descriptor became ready to read.
    ReadReady,
    /// The descriptor became ready to write.
    WriteReady,
    /// The watch primitive reported a fatal error.
    WatchError,
}

/// What the watcher task does next.
#[derive(Clone, Copy, Debug, PartialEq, Eq, Structural)]
pub enum TaskStep {
    /// Terminate the task.
    Exit,
    /// Mark the descriptor active with these direction bits, clear the
    /// readiness indication, notify the dispatcher once, and keep going.
    Activate(u32),
    /// Nothing to report; re-evaluate the counts and keep waiting.
    Idle,
}

/// The decision one loop turn of the watcher task takes, given the
/// current interest counts and what woke it.
pub open spec fn spec_io_task_step(nread: u32, nwrite: u32, event: TaskEvent) -> TaskStep {
    match event {
        TaskEvent::InterestChanged => if nread == 0 && nwrite == 0 {
            TaskStep::Exit
        } else {
            TaskStep::Idle
        },
        TaskEvent::ReadReady => if nread > 0 {
            TaskStep::Activate(EV_READ)
        } else {
            TaskStep::Idle
        },
        TaskEvent::WriteReady => if nwrite > 0 {
            TaskStep::Activate(EV_WRITE)
        } else {
            TaskStep::Idle
        },
        TaskEvent::WatchError => TaskStep::Exit,
    }
}

/// Decides one loop turn of the watcher task.  The counts are re-read on
/// every turn, so a change of interest is observed without tearing the
/// task down; the task exits exactly when the counts reach zero or the
/// watch reports a fatal error; readiness in a direction nobody counts
/// anymore is ignored.
pub fn io_task_step(nread: u32, nwrite: u32, event: TaskEvent) -> (r: TaskStep)
    ensures
        r == spec_io_task_step(nread, nwrite, event),
{
    match event {
        TaskEvent::InterestChanged => if nread == 0 && nwrite == 0 {
            TaskStep::Exit
        } else {
            TaskStep::Idle
        },
        TaskEvent::ReadReady => if nread > 0 {
            TaskStep::Activate(EV_READ)
        } else {
            TaskStep::Idle
        },
        TaskEvent::WriteReady => if nwrite > 0 {
            TaskStep::Activate(EV_WRITE)
        } else {
            TaskStep::Idle
        },
        TaskEvent::WatchError => TaskStep::Exit,
    }
}

/// The spec-level history of one key in the registration map: its
/// current entry, the id the map would hand out next, and the ids
/// spawned and joined for this key so far.
pub struct RegHistory {
    /// The entry for the key, while one exists.
    pub cur: Option<IoEntry>,
    /// The task id the map would hand to the next watcher.
    pub next: u64,
    /// Task ids spawned for this key so far.
    pub spawned: Set<u64>,
    /// Task ids handed back for joining so far.
    pub joined: Set<u64>,
}

/// One registration call on the key.
pub enum RegOp {
    /// Register the interest.
    Add(IoType),
    /// Remove the interest.
    Del(IoType),
}

/// The invariant a key's history keeps: a present entry holds interest,
/// its task was spawned, never joined, and every id ever spawned lies
/// below the next fresh one, while joined ids are spawned ids.
pub open spec fn reg_wf(h: RegHistory) -> bool {
    &&& (match h.cur {
        Some(e) => e.nread + e.nwrite > 0 && e.task < h.next && h.spawned.contains(e.task)
            && !h.joined.contains(e.task),
        None => true,
    })
    &&& forall|t: u64| #[trigger] h.spawned.contains(t) ==> t < h.next
    &&& h.joined.subset_of(h.spawned)
}

/// Whether the op stays within the counters' machine limits.
pub open spec fn reg_enabled(h: RegHistory, op: RegOp) -> bool {
    match op {
        RegOp::Add(_) => h.next < u64::MAX && (match h.cur {
            Some(e) => e.nread < u32::MAX && e.nwrite < u32::MAX,
            None => true,
        }),
        RegOp::Del(_) => true,
    }
}

/// The history after one call, mirroring what `add` and `del` ensure for
/// the one key: an erroneous removal mutates nothing.
pub open spec fn reg_step(h: RegHistory, op: RegOp) -> RegHistory {
    match op {
        RegOp::Add(t) => match h.cur {
            Some(e) => RegHistory { cur: Some(spec_bump(e, t)), ..h },
            None => RegHistory {
                cur: Some(spec_initial_entry(t, h.next)),
                next: (h.next + 1) as u64,
                spawned: h.spawned.insert(h.next),
                ..h
            },
        },
        RegOp::Del(t) => match h.cur {
            Some(e) => if spec_can_drop(e, t) {
                let lowered = spec_drop(e, t);
                if lowered.nread == 0 && lowered.nwrite == 0 {
                    RegHistory { cur: None, joined: h.joined.insert(e.task), ..h }
                } else {
                    RegHistory { cur: Some(lowered), ..h }
                }
            } else {
                h
            },
            None => h,
        },
    }
}

/// The history after the whole sequence of calls.
pub open spec fn reg_run(h: RegHistory, ops: Seq<RegOp>) -> RegHistory
    decreases ops.len(),
{
    if ops.len() == 0 {
        h
    } else {
        reg_run(reg_step(h, ops[0]), ops.subrange(1, ops.len() as int))
    }
}

/// Whether every call of `ops` stays within machine limits when its turn
/// comes.
pub open spec fn reg_trace_enabled(h: RegHistory, ops: Seq<RegOp>) -> bool
    decreases ops.len(),
{
    ops.len() == 0 || (reg_enabled(h, ops[0]) && reg_trace_enabled(
        reg_step(h, ops[0]),
        ops.subrange(1, ops.len() as int),
    ))
}

/// Reference counting, one call at a time: the entry exists exactly
/// while the sum of its interest counts is positive; a spawn hands out an
/// id never seen before; a join hands back the current entry's task,
/// which was spawned earlier and is joined here for the first time.
pub proof fn lemma_reg_step(h: RegHistory, op: RegOp)
    requires
        reg_wf(h),
        reg_enabled(h, op),
    ensures
        reg_wf(reg_step(h, op)),
        reg_step(h, op).spawned != h.spawned ==> !h.spawned.contains(h.next) && reg_step(
            h,
            op,
        ).spawned == h.spawned.insert(h.next),
        reg_step(h, op).joined != h.joined ==> (match h.cur {
            Some(e) => reg_step(h, op).joined == h.joined.insert(e.task) && h.spawned.contains(
                e.task,
            ) && !h.joined.contains(e.task),
            None => false,
        }),
{
    match op {
        RegOp::Add(t) => {
            if h.cur is None {
                assert(!h.spawned.contains(h.next));
            }
        },
        RegOp::Del(_) => {
        },
    }
}

/// Reference counting over whole call sequences on one key: from any
/// well-formed history, every interleaving of adds and deletes keeps the
/// entry exactly while the sum of outstanding interest counts is
/// positive, and keeps joined ids a subset of spawned ids.
pub proof fn lemma_refcount_trace(h: RegHistory, ops: Seq<RegOp>)
    requires
        reg_wf(h),
        reg_trace_enabled(h, ops),
    ensures
        reg_wf(reg_run(h, ops)),
    decreases ops.len(),
{
    if ops.len() > 0 {
        lemma_reg_step(h, ops[0]);
        lemma_refcount_trace(reg_step(h, ops[0]), ops.subrange(1, ops.len() as int));
    }
}

} // verus!
