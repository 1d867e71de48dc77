//! The open-loop servo sweep over three fixed positions.

use vstd::prelude::*;
use crate::firmware::timing::Wait;

verus! {

/// Time spent at each position, in seconds.
pub const SERVO_DWELL_SECONDS: u64 = 1;

/// The three duty values of the sweep.
#[derive(Clone, Copy, Debug, PartialEq, Eq, Structural)]
pub struct ServoPresets {
    /// Duty for 0 degrees: a twentieth of the maximum.
    pub min_duty: u16,
    /// Duty for 90 degrees: three fortieths of the maximum.
    pub center_duty: u16,
    /// Duty for 180 degrees: a tenth of the maximum.
    pub max_duty_servo: u16,
}

/// The position that the sweep commands.
#[derive(Clone, Copy, Debug, PartialEq, Eq, Structural)]
pub enum ServoPosition {
    Min,
    Center,
    Max,
}

impl ServoPosition {
    /// The position commanded by the step that follows `k` earlier steps.
    pub open spec fn at(k: nat) -> ServoPosition {
        if k % 3 == 0 {
            ServoPosition::Min
        } else if k % 3 == 1 {
            ServoPosition::Center
        } else {
            ServoPosition::Max
        }
    }

    /// The position after `self` in the sweep.
    pub open spec fn spec_next(self) -> ServoPosition {
        match self {
            ServoPosition::Min => ServoPosition::Center,
            ServoPosition::Center => ServoPosition::Max,
            ServoPosition::Max => ServoPosition::Min,
        }
    }

    /// The position after `self` in the sweep.
    #[verifier::when_used_as_spec(spec_next)]
    pub fn next(self) -> (r: ServoPosition)
        ensures
            r == self.spec_next(),
    {
        match self {
            ServoPosition::Min => ServoPosition::Center,
            ServoPosition::Center => ServoPosition::Max,
            ServoPosition::Max => ServoPosition::Min,
        }
    }
}

impl ServoPresets {
    /// The presets for a channel whose maximum duty is `max_duty`.
    pub open spec fn spec_from_max_duty(max_duty: u16) -> ServoPresets {
        ServoPresets {
            min_duty: (max_duty / 20) as u16,
            center_duty: (max_duty * 3 / 40) as u16,
            max_duty_servo: (max_duty / 10) as u16,
        }
    }

    /// The duty of `position`.
    pub open spec fn spec_duty(self, position: ServoPosition) -> u16 {
        match position {
            ServoPosition::Min => self.min_duty,
            ServoPosition::Center => self.center_duty,
            ServoPosition::Max => self.max_duty_servo,
        }
    }

    /// Derives the presets from the channel's maximum duty.
    pub fn from_max_duty(max_duty: u16) -> (r: ServoPresets)
        ensures
            r == ServoPresets::spec_from_max_duty(max_duty),
            r.min_duty == max_duty / 20,
            r.center_duty == max_duty * 3 / 40,
            r.max_duty_servo == max_duty / 10,
    {
        let wide: u32 = max_duty as u32;
        let center: u32 = wide * 3 / 40;
        ServoPresets {
            min_duty: max_duty / 20,
            center_duty: center as u16,
            max_duty_servo: max_duty / 10,
        }
    }

    /// The duty of `position`.
    #[verifier::when_used_as_spec(spec_duty)]
    pub fn duty(self, position: ServoPosition) -> (r: u16)
        ensures
            r == self.spec_duty(position),
    {
        match position {
            ServoPosition::Min => self.min_duty,
            ServoPosition::Center => self.center_duty,
            ServoPosition::Max => self.max_duty_servo,
        }
    }
}

/// The servo task between two of its delays.
#[derive(Clone, Copy, Debug, PartialEq, Eq, Structural)]
pub struct ServoTask {
    /// The presets, fixed when the task starts.
    pub presets: ServoPresets,
    /// The position that the next step commands.
    pub position: ServoPosition,
}

/// What one step of the sweep asks for.
#[derive(Clone, Copy, Debug, PartialEq, Eq, Structural)]
pub struct ServoStep {
    /// The duty to set on the channel.
    pub duty: u16,
    /// The delay to dwell there.
    pub wait: Wait,
}

impl ServoTask {
    /// The task with presets `presets` after `k` steps.
    pub open spec fn after(presets: ServoPresets, k: nat) -> ServoTask {
        ServoTask { presets, position: ServoPosition::at(k) }
    }

    /// The state after the step taken in `self`.
    pub open spec fn spec_next(self) -> ServoTask {
        ServoTask { presets: self.presets, position: self.position.spec_next() }
    }

    /// What the step taken in `self` asks for.
    pub open spec fn spec_step(self) -> ServoStep {
        ServoStep { duty: self.presets.spec_duty(self.position), wait: Wait::Seconds(1) }
    }

    /// The task for a channel whose maximum duty is `max_duty`, before its
    /// first step.
    pub fn new(max_duty: u16) -> (r: ServoTask)
        ensures
            r == ServoTask::after(ServoPresets::spec_from_max_duty(max_duty), 0),
    {
        ServoTask { presets: ServoPresets::from_max_duty(max_duty), position: ServoPosition::Min }
    }

    /// Commands the next position of the sweep and dwells there for a second.
    /// The presets stay as they were derived at start.
    pub fn step(&mut self) -> (r: ServoStep)
        ensures
            r == old(self).spec_step(),
            *final(self) == old(self).spec_next(),
    {
        let duty = self.presets.duty(self.position);
        self.position = self.position.next();
        ServoStep { duty, wait: Wait::Seconds(SERVO_DWELL_SECONDS) }
    }
}

/// The sweep is fixed and cyclic: the step that follows `k` earlier steps
/// sets the minimum duty when `k` is a multiple of three, the centre duty
/// one step later and the maximum duty one step after that, each held for
/// exactly one dwell period; and one step leads from the task after `k`
/// steps to the task after `k + 1`.
pub proof fn lemma_servo_sweep(presets: ServoPresets, k: nat)
    ensures
        ServoTask::after(presets, k).spec_step().wait == Wait::Seconds(1),
        ServoTask::after(presets, k).spec_step().duty == (if k % 3 == 0 {
            presets.min_duty
        } else if k % 3 == 1 {
            presets.center_duty
        } else {
            presets.max_duty_servo
        }),
        ServoTask::after(presets, k + 1) == ServoTask::after(presets, k).spec_next(),
        ServoTask::after(presets, k + 3) == ServoTask::after(presets, k),
{
}

} // verus!
