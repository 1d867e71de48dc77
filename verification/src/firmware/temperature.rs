//! Thermistor sampling: one sample a second.
//!
//! The conversion from the raw sample to degrees is floating-point work and
//! is done by the caller, who hands the formatted value to
//! `SensorReadings::record_temperature`.

use vstd::prelude::*;
use crate::firmware::timing::Wait;

verus! {

/// Largest raw sample of the 12-bit converter.
pub const SAMPLE_MAX: u16 = 4095;

/// Pause between two samples, in milliseconds.
pub const SAMPLE_PERIOD_MS: u64 = 1000;

/// Where the sampling task is suspended.
#[derive(Clone, Copy, Debug, PartialEq, Eq, Structural)]
pub enum TemperatureTask {
    /// Not yet run.
    Start,
    /// Waiting for the converter.
    Sampling,
    /// A reading was published; pausing before the next sample.
    Resting,
}

/// What one step of the sampling task asks for.
#[derive(Clone, Copy, Debug, PartialEq, Eq, Structural)]
pub struct TemperatureStep {
    /// Whether the awaited sample has arrived and is to be converted and
    /// written to the shared state now.
    pub publish: bool,
    /// What to wait for next.
    pub wait: Wait,
}

impl TemperatureTask {
    /// The state after the step taken in `self`.
    pub open spec fn spec_next(self) -> TemperatureTask {
        match self {
            TemperatureTask::Start => TemperatureTask::Sampling,
            TemperatureTask::Sampling => TemperatureTask::Resting,
            TemperatureTask::Resting => TemperatureTask::Sampling,
        }
    }

    /// What the step taken in `self` asks for.
    pub open spec fn spec_step(self) -> TemperatureStep {
        match self {
            TemperatureTask::Sampling => TemperatureStep {
                publish: true,
                wait: Wait::Millis(1000),
            },
            _ => TemperatureStep { publish: false, wait: Wait::Sample },
        }
    }

    /// The task before its first step.
    pub fn new() -> (r: TemperatureTask)
        ensures
            r == TemperatureTask::Start,
    {
        TemperatureTask::Start
    }

    /// Runs the task to its next suspension: it asks for a sample, and when
    /// the sample has arrived it has the reading published and pauses for a
    /// second. Every sample is published; none is smoothed or dropped.
    pub fn step(&mut self) -> (r: TemperatureStep)
        ensures
            *final(self) == old(self).spec_next(),
            r == old(self).spec_step(),
    {
        match *self {
            TemperatureTask::Sampling => {
                *self = TemperatureTask::Resting;
                TemperatureStep { publish: true, wait: Wait::Millis(SAMPLE_PERIOD_MS) }
            },
            _ => {
                *self = TemperatureTask::Sampling;
                TemperatureStep { publish: false, wait: Wait::Sample }
            },
        }
    }
}

} // verus!
