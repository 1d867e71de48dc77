//! Ultrasonic ranging: a trigger pulse, and the width of the echo.

use vstd::prelude::*;
use crate::firmware::timing::{Level, Wait};

verus! {

/// Microseconds of echo per centimeter of distance, there and back.
pub const MICROS_PER_CM: u64 = 58;

/// Settle time before the trigger pulse, in milliseconds.
pub const SETTLE_MS: u64 = 5;

/// Width of the trigger pulse, in microseconds.
pub const PULSE_US: u64 = 10;

/// Pause between two measurements, in milliseconds.
pub const REST_MS: u64 = 100;

/// Microseconds from `rise` to `fall`, read off one monotonic clock; zero if
/// `fall` is not later than `rise`.
pub open spec fn spec_echo_width(rise: u64, fall: u64) -> u64 {
    if fall >= rise {
        (fall - rise) as u64
    } else {
        0
    }
}

/// Centimeters for an echo `width_us` microseconds wide: the width divided
/// by 58, rounded down.
pub open spec fn spec_distance_cm(width_us: u64) -> u64 {
    width_us / 58
}

/// Microseconds from `rise` to `fall`; zero if `fall` is not later than `rise`.
#[verifier::when_used_as_spec(spec_echo_width)]
pub fn echo_width(rise: u64, fall: u64) -> (r: u64)
    ensures
        r == spec_echo_width(rise, fall),
        fall >= rise ==> r == fall - rise,
{
    if fall >= rise {
        fall - rise
    } else {
        0
    }
}

/// Centimeters for an echo `width_us` microseconds wide.
#[verifier::when_used_as_spec(spec_distance_cm)]
pub fn distance_cm(width_us: u64) -> (r: u64)
    ensures
        r == width_us / 58,
{
    width_us / MICROS_PER_CM
}

/// Where the ranging task is suspended.
#[derive(Clone, Copy, Debug, PartialEq, Eq, Structural)]
pub enum DistanceTask {
    /// Not yet run.
    Start,
    /// Trigger low, settling.
    Settling,
    /// Trigger high, for the width of the pulse.
    Pulsing,
    /// Waiting for the echo to begin.
    AwaitEcho,
    /// The echo began at `rise` microseconds; waiting for it to end.
    Timing { rise: u64 },
    /// A distance was published; pausing before the next measurement.
    Resting,
}

/// What one step of the ranging task asks for.
#[derive(Clone, Copy, Debug, PartialEq, Eq, Structural)]
pub struct DistanceStep {
    /// The level to drive on the trigger, if it changes.
    pub trigger: Option<Level>,
    /// The distance to write to the shared state, in centimeters, if one
    /// was measured.
    pub publish: Option<u64>,
    /// What to wait for next.
    pub wait: Wait,
}

impl DistanceTask {
    /// The state after the step taken in `self` at `now` microseconds.
    pub open spec fn spec_next(self, now: u64) -> DistanceTask {
        match self {
            DistanceTask::Start => DistanceTask::Settling,
            DistanceTask::Settling => DistanceTask::Pulsing,
            DistanceTask::Pulsing => DistanceTask::AwaitEcho,
            DistanceTask::AwaitEcho => DistanceTask::Timing { rise: now },
            DistanceTask::Timing { rise } => DistanceTask::Resting,
            DistanceTask::Resting => DistanceTask::Settling,
        }
    }

    /// What the step taken in `self` at `now` microseconds asks for.
    pub open spec fn spec_step(self, now: u64) -> DistanceStep {
        match self {
            DistanceTask::Start => DistanceStep {
                trigger: Some(Level::Low),
                publish: None,
                wait: Wait::Millis(5),
            },
            DistanceTask::Settling => DistanceStep {
                trigger: Some(Level::High),
                publish: None,
                wait: Wait::Micros(10),
            },
            DistanceTask::Pulsing => DistanceStep {
                trigger: Some(Level::Low),
                publish: None,
                wait: Wait::RisingEdge,
            },
            DistanceTask::AwaitEcho => DistanceStep {
                trigger: None,
                publish: None,
                wait: Wait::FallingEdge,
            },
            DistanceTask::Timing { rise } => DistanceStep {
                trigger: None,
                publish: Some(spec_distance_cm(spec_echo_width(rise, now))),
                wait: Wait::Millis(100),
            },
            DistanceTask::Resting => DistanceStep {
                trigger: Some(Level::Low),
                publish: None,
                wait: Wait::Millis(5),
            },
        }
    }

    /// The task before its first step.
    pub fn new() -> (r: DistanceTask)
        ensures
            r == DistanceTask::Start,
    {
        DistanceTask::Start
    }

    /// Runs the task to its next suspension. `now` is the time of the call
    /// in microseconds on a monotonic clock. The step taken when the echo
    /// ends publishes the distance; no other step publishes anything.
    pub fn step(&mut self, now: u64) -> (r: DistanceStep)
        ensures
            *final(self) == old(self).spec_next(now),
            r == old(self).spec_step(now),
    {
        let (next, out) = match *self {
            DistanceTask::Start | DistanceTask::Resting => (
                DistanceTask::Settling,
                DistanceStep {
                    trigger: Some(Level::Low),
                    publish: None,
                    wait: Wait::Millis(SETTLE_MS),
                },
            ),
            DistanceTask::Settling => (
                DistanceTask::Pulsing,
                DistanceStep {
                    trigger: Some(Level::High),
                    publish: None,
                    wait: Wait::Micros(PULSE_US),
                },
            ),
            DistanceTask::Pulsing => (
                DistanceTask::AwaitEcho,
                DistanceStep { trigger: Some(Level::Low), publish: None, wait: Wait::RisingEdge },
            ),
            DistanceTask::AwaitEcho => (
                DistanceTask::Timing { rise: now },
                DistanceStep { trigger: None, publish: None, wait: Wait::FallingEdge },
            ),
            DistanceTask::Timing { rise } => (
                DistanceTask::Resting,
                DistanceStep {
                    trigger: None,
                    publish: Some(distance_cm(echo_width(rise, now))),
                    wait: Wait::Millis(REST_MS),
                },
            ),
        };
        *self = next;
        out
    }
}

/// One measurement, from the pause after the last one (or from start): the
/// trigger is held low for 5 ms, raised for 10 us and lowered again; the
/// task then waits for the echo to begin, at `rise`, and to end, at `fall`,
/// and publishes the microseconds between the two divided by 58, rounded
/// down, whatever the times of the other steps were. It then pauses for
/// 100 ms and is ready for the next measurement.
pub proof fn lemma_measurement_cycle(
    task: DistanceTask,
    t0: u64,
    t1: u64,
    t2: u64,
    rise: u64,
    fall: u64,
)
    requires
        task == DistanceTask::Start || task == DistanceTask::Resting,
        rise <= fall,
    ensures
        ({
            let s1 = task.spec_next(t0);
            let s2 = s1.spec_next(t1);
            let s3 = s2.spec_next(t2);
            let s4 = s3.spec_next(rise);
            let s5 = s4.spec_next(fall);
            &&& task.spec_step(t0) == DistanceStep {
                trigger: Some(Level::Low),
                publish: None,
                wait: Wait::Millis(5),
            }
            &&& s1.spec_step(t1) == DistanceStep {
                trigger: Some(Level::High),
                publish: None,
                wait: Wait::Micros(10),
            }
            &&& s2.spec_step(t2) == DistanceStep {
                trigger: Some(Level::Low),
                publish: None,
                wait: Wait::RisingEdge,
            }
            &&& s3.spec_step(rise) == DistanceStep {
                trigger: None,
                publish: None,
                wait: Wait::FallingEdge,
            }
            &&& s4.spec_step(fall) == DistanceStep {
                trigger: None,
                publish: Some(((fall - rise) / 58) as u64),
                wait: Wait::Millis(100),
            }
            &&& s5 == DistanceTask::Resting
        }),
{
}

} // verus!
