//! The decisions of the fixed-cadence tick loop: when to step the world,
//! when to wait, and when to stop.
use vstd::prelude::*;

verus! {

/// What the tick loop does next.
#[derive(Copy, Clone, PartialEq, Eq, Debug, Structural)]
pub enum LoopAction {
    /// Step the world and broadcast the snapshot.
    Step,
    /// Yield briefly: the next deadline has not come yet.
    Wait,
    /// Shut down: no connection is left.
    Stop,
}

/// Decides the loop's next action at time `now_ms`, given the next tick
/// deadline, the tick interval and the number of open connections, and
/// returns the deadline that follows. A tick that falls due moves the
/// deadline on by exactly one interval, never to `now_ms` plus one, so a
/// loop that fell behind runs its backlog of ticks back to back.
pub fn schedule(now_ms: u64, deadline_ms: u64, interval_ms: u64, open: usize) -> (r: (
    LoopAction,
    u64,
))
    requires
        deadline_ms + interval_ms <= u64::MAX,
    ensures
        open == 0 ==> r.0 == LoopAction::Stop && r.1 == deadline_ms,
        open > 0 && now_ms >= deadline_ms ==> r.0 == LoopAction::Step && r.1 == deadline_ms
            + interval_ms,
        open > 0 && now_ms < deadline_ms ==> r.0 == LoopAction::Wait && r.1 == deadline_ms,
{
    if open == 0 {
        (LoopAction::Stop, deadline_ms)
    } else if now_ms >= deadline_ms {
        (LoopAction::Step, deadline_ms + interval_ms)
    } else {
        (LoopAction::Wait, deadline_ms)
    }
}

} // verus!
