//! What a task can wait for.

use vstd::prelude::*;

verus! {

/// A suspension: the task runs again once it is over.
#[derive(Clone, Copy, Debug, PartialEq, Eq, Structural)]
pub enum Wait {
    /// A delay in microseconds.
    Micros(u64),
    /// A delay in milliseconds.
    Millis(u64),
    /// A delay in seconds.
    Seconds(u64),
    /// Until the task's input goes from low to high.
    RisingEdge,
    /// Until the task's input goes from high to low.
    FallingEdge,
    /// Until the analog converter has a sample.
    Sample,
}

/// The level of a digital pin.
#[derive(Clone, Copy, Debug, PartialEq, Eq, Structural)]
pub enum Level {
    Low,
    High,
}

} // verus!
