//! The liveness indicator: an output toggled twice a second.

use vstd::prelude::*;
use crate::firmware::timing::{Level, Wait};

verus! {

/// Half a blink period, in milliseconds.
pub const HEARTBEAT_HALF_PERIOD_MS: u64 = 500;

/// The level driven by the step that follows `k` earlier steps: high first,
/// then low, in turns.
pub open spec fn heartbeat_level(k: nat) -> Level {
    if k % 2 == 0 {
        Level::High
    } else {
        Level::Low
    }
}

/// The heartbeat task between two of its delays.
#[derive(Clone, Copy, Debug, PartialEq, Eq, Structural)]
pub struct HeartbeatTask {
    /// The level that the next step drives.
    pub next: Level,
}

/// What one step of the heartbeat asks for.
#[derive(Clone, Copy, Debug, PartialEq, Eq, Structural)]
pub struct HeartbeatStep {
    /// The level to drive on the indicator.
    pub level: Level,
    /// The delay to hold it.
    pub wait: Wait,
}

impl HeartbeatTask {
    /// The task after `k` steps.
    pub open spec fn after(k: nat) -> HeartbeatTask {
        HeartbeatTask { next: heartbeat_level(k) }
    }

    /// The state after the step taken in `self`.
    pub open spec fn spec_next(self) -> HeartbeatTask {
        HeartbeatTask {
            next: match self.next {
                Level::High => Level::Low,
                Level::Low => Level::High,
            },
        }
    }

    /// What the step taken in `self` asks for.
    pub open spec fn spec_step(self) -> HeartbeatStep {
        HeartbeatStep { level: self.next, wait: Wait::Millis(500) }
    }

    /// The task before its first step.
    pub fn new() -> (r: HeartbeatTask)
        ensures
            r == HeartbeatTask::after(0),
    {
        HeartbeatTask { next: Level::High }
    }

    /// Drives the indicator to the other level and holds it for half a second.
    pub fn step(&mut self) -> (r: HeartbeatStep)
        ensures
            r == old(self).spec_step(),
            *final(self) == old(self).spec_next(),
    {
        let level = self.next;
        self.next = match level {
            Level::High => Level::Low,
            Level::Low => Level::High,
        };
        HeartbeatStep { level, wait: Wait::Millis(HEARTBEAT_HALF_PERIOD_MS) }
    }
}

/// The task that has made `k` steps drives `heartbeat_level(k)` next and is
/// then the task that has made `k + 1` steps: the indicator is high, low,
/// high, low, and so on, for half a second each.
pub proof fn lemma_heartbeat_alternates(k: nat)
    ensures
        HeartbeatTask::after(k).spec_step() == (HeartbeatStep {
            level: heartbeat_level(k),
            wait: Wait::Millis(500),
        }),
        HeartbeatTask::after(k + 1) == HeartbeatTask::after(k).spec_next(),
{
}

} // verus!
