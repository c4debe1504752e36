//! Decisions of the compatibility loop that turns the reactor from
//! inside an asynchronous task, one loop turn at a time.  The turns
//! themselves run through the reactor's native turn hooks; what the loop
//! decides between those hooks is modeled here.

use vstd::prelude::*;

verus! {

/// What the loop does after a turn hook reports its status.
#[derive(Clone, Copy, Debug, PartialEq, Eq, Structural)]
pub enum TurnControl {
    /// Go on with the turn, or with the next one.
    Proceed,
    /// Leave the loop.
    Finish,
}

/// The control decision a turn hook's status word asks for: one means
/// the loop is done, two means it was told to break; everything else
/// proceeds.
pub open spec fn spec_turn_control(ret: i32) -> TurnControl {
    if ret == 1 || ret == 2 {
        TurnControl::Finish
    } else {
        TurnControl::Proceed
    }
}

/// Decides whether the loop goes on after a turn hook reported `ret`.
pub fn turn_control(ret: i32) -> (r: TurnControl)
    ensures
        r == spec_turn_control(ret),
{
    if ret == 1 || ret == 2 {
        TurnControl::Finish
    } else {
        TurnControl::Proceed
    }
}

/// How the loop waits for the reactor's own descriptor to become ready.
#[derive(Clone, Copy, Debug, PartialEq, Eq, Structural)]
pub enum CompatWait {
    /// No deadline is due: wait on readiness alone.
    Indefinite,
    /// A deadline is due in this many milliseconds: wait on readiness or
    /// on its expiry, whichever comes first.
    SleepMillis(u64),
}

/// The wait the dispatch-preparation step's timeout asks for: a negative
/// value stands for no deadline.
pub open spec fn spec_compat_wait(timeout_ms: i64) -> CompatWait {
    if timeout_ms < 0 {
        CompatWait::Indefinite
    } else {
        CompatWait::SleepMillis(timeout_ms as u64)
    }
}

/// Decides how the loop waits, given the timeout the dispatch
/// preparation computed.
pub fn compat_wait(timeout_ms: i64) -> (r: CompatWait)
    ensures
        r == spec_compat_wait(timeout_ms),
{
    if timeout_ms < 0 {
        CompatWait::Indefinite
    } else {
        CompatWait::SleepMillis(timeout_ms as u64)
    }
}

} // verus!
