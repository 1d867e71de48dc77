//! The debounced push button that moves the display on.

use vstd::prelude::*;
use crate::firmware::mode::DisplayMode;
use crate::firmware::state::{pressed, AppStateView};
use crate::firmware::timing::Wait;

verus! {

/// The debounce interval, in milliseconds.
pub const DEBOUNCE_MS: u64 = 50;

/// Where the button task is suspended.
#[derive(Clone, Copy, Debug, PartialEq, Eq, Structural)]
pub enum ButtonTask {
    /// Not yet run.
    Start,
    /// Waiting for the press.
    AwaitPress,
    /// A rising edge was seen; waiting out the debounce interval.
    DebouncePress,
    /// Waiting for the release.
    AwaitRelease,
    /// A falling edge was seen; waiting out the debounce interval.
    DebounceRelease,
}

/// What one step of the button task asks for.
#[derive(Clone, Copy, Debug, PartialEq, Eq, Structural)]
pub struct ButtonStep {
    /// Whether a press was confirmed, so that the shared state takes it.
    pub confirmed: bool,
    /// What to wait for next.
    pub wait: Wait,
}

impl ButtonTask {
    /// The state after the step taken in `self`.
    pub open spec fn spec_next(self) -> ButtonTask {
        match self {
            ButtonTask::Start => ButtonTask::AwaitPress,
            ButtonTask::AwaitPress => ButtonTask::DebouncePress,
            ButtonTask::DebouncePress => ButtonTask::AwaitRelease,
            ButtonTask::AwaitRelease => ButtonTask::DebounceRelease,
            ButtonTask::DebounceRelease => ButtonTask::AwaitPress,
        }
    }

    /// What the task waits for while it is in `self`; nothing before its
    /// first step.
    pub open spec fn pending(self) -> Option<Wait> {
        match self {
            ButtonTask::Start => None,
            ButtonTask::AwaitPress => Some(Wait::RisingEdge),
            ButtonTask::DebouncePress => Some(Wait::Millis(50)),
            ButtonTask::AwaitRelease => Some(Wait::FallingEdge),
            ButtonTask::DebounceRelease => Some(Wait::Millis(50)),
        }
    }

    /// Whether the step taken in `self` with the input at `level_high`
    /// confirms a press: only after the debounce interval of a press, and
    /// only if the input is still high.
    pub open spec fn confirms(self, level_high: bool) -> bool {
        self == ButtonTask::DebouncePress && level_high
    }

    /// The task before its first step.
    pub fn new() -> (r: ButtonTask)
        ensures
            r == ButtonTask::Start,
    {
        ButtonTask::Start
    }

    /// Runs the task to its next suspension. `level_high` is the level of
    /// the button now. The press counts only when the level is still high
    /// after the debounce interval; whether it counts or not, the task then
    /// waits for the release and debounces that too.
    pub fn step(&mut self, level_high: bool) -> (r: ButtonStep)
        ensures
            *final(self) == old(self).spec_next(),
            r.confirmed == old(self).confirms(level_high),
            Some(r.wait) == final(self).pending(),
    {
        let (next, confirmed, wait) = match *self {
            ButtonTask::Start => (ButtonTask::AwaitPress, false, Wait::RisingEdge),
            ButtonTask::AwaitPress => (ButtonTask::DebouncePress, false, Wait::Millis(DEBOUNCE_MS)),
            ButtonTask::DebouncePress => (ButtonTask::AwaitRelease, level_high, Wait::FallingEdge),
            ButtonTask::AwaitRelease => (
                ButtonTask::DebounceRelease,
                false,
                Wait::Millis(DEBOUNCE_MS),
            ),
            ButtonTask::DebounceRelease => (ButtonTask::AwaitPress, false, Wait::RisingEdge),
        };
        *self = next;
        ButtonStep { confirmed, wait }
    }
}

/// The shared state after the executor has carried out what the step taken
/// in `task` with the input at `level_high` asks for: a confirmed press is
/// taken by the shared state, and nothing else is written.
pub open spec fn state_after_button_step(
    s: AppStateView,
    task: ButtonTask,
    level_high: bool,
) -> AppStateView {
    if task.confirms(level_high) {
        pressed(s)
    } else {
        s
    }
}

/// A rising edge that does not last through the debounce interval changes
/// nothing: when the input is low again at the end of the interval, the
/// shared state stays as it was. No other step of the task changes it
/// either, so only a press that is still held after the interval is taken.
pub proof fn lemma_bounce_is_ignored(s: AppStateView, task: ButtonTask, level_high: bool)
    ensures
        task == ButtonTask::DebouncePress && !level_high ==> state_after_button_step(
            s,
            task,
            level_high,
        ) == s,
        task != ButtonTask::DebouncePress ==> state_after_button_step(s, task, level_high) == s,
{
}

/// The button's transitions are from the readings to the picture and from
/// the picture to the readings, and no others: a confirmed press switches
/// between the two, no step of the task takes the display out of the
/// greeting or into it, and no step touches the readings.
pub proof fn lemma_button_transitions(s: AppStateView, task: ButtonTask, level_high: bool)
    ensures
        state_after_button_step(s, task, level_high).readings == s.readings,
        s.mode == DisplayMode::Intro ==> state_after_button_step(s, task, level_high) == s,
        s.mode != DisplayMode::Intro ==> state_after_button_step(s, task, level_high).mode
            != DisplayMode::Intro,
        task.confirms(level_high) && s.mode == DisplayMode::DataDisplay
            ==> state_after_button_step(s, task, level_high).mode == DisplayMode::Image,
        task.confirms(level_high) && s.mode == DisplayMode::Image ==> state_after_button_step(
            s,
            task,
            level_high,
        ).mode == DisplayMode::DataDisplay,
        !task.confirms(level_high) ==> state_after_button_step(s, task, level_high) == s,
{
}

/// Between two confirmations lie at least four suspensions: after the step
/// that can confirm a press, the next step that can do so is the fourth one
/// after it, past the release and both debounce intervals.
pub proof fn lemma_one_confirmation_per_press(task: ButtonTask)
    requires
        task == ButtonTask::DebouncePress,
    ensures
        task.spec_next() != ButtonTask::DebouncePress,
        task.spec_next().spec_next() != ButtonTask::DebouncePress,
        task.spec_next().spec_next().spec_next() != ButtonTask::DebouncePress,
        task.spec_next().spec_next().spec_next().spec_next() == ButtonTask::DebouncePress,
        task.spec_next().pending() == Some(Wait::FallingEdge),
        task.spec_next().spec_next().pending() == Some(Wait::Millis(50)),
        task.spec_next().spec_next().spec_next().pending() == Some(Wait::RisingEdge),
{
}

} // verus!
