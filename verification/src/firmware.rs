//! The cooperative tasks of the device and the state they share.
//!
//! Each task is a state machine whose states are its suspension points. A
//! call of its `step` runs the task from the point where it was suspended to
//! the next one and says what to drive, what to write to the shared state
//! and what to wait for. The executor performs the wait and calls again.

pub mod button;
pub mod device;
pub mod display;
pub mod distance;
pub mod heartbeat;
pub mod mode;
pub mod servo;
pub mod state;
pub mod temperature;
pub mod text;
pub mod timing;
