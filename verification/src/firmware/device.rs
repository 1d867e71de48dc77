//! The whole device: the shared state and the six tasks, run one step at a
//! time as a cooperative executor on a single core runs them.
//!
//! A step runs one task from its suspension point to the next. It is the
//! only code that runs meanwhile, so whatever it writes to the shared state
//! is written whole before any other task reads it, and no task is
//! suspended between taking the state and giving it back.

use vstd::prelude::*;
use crate::firmware::button::ButtonTask;
use crate::firmware::display::{display_step, drawn_for, DrawView, Frame};
use crate::firmware::distance::DistanceTask;
use crate::firmware::heartbeat::HeartbeatTask;
use crate::firmware::mode::DisplayMode;
use crate::firmware::servo::{ServoPresets, ServoTask};
use crate::firmware::state::{
    advances, applied, applied_all, distance_line, initial_state, last_distance,
    last_temperature, lemma_mode_follows_advances, lemma_readings_are_whole, press_write,
    temperature_fits, temperature_line,
    AppState, AppStateView, Update, UpdateView,
};
use crate::firmware::temperature::TemperatureTask;
use crate::firmware::timing::{Level, Wait};

verus! {

/// The task to run next, with what the executor observed when the task's
/// wait ended.
pub enum Resume<'a> {
    /// The display task.
    Display,
    /// The heartbeat task.
    Heartbeat,
    /// The servo task.
    Servo,
    /// The ranging task, at `now` microseconds on a monotonic clock.
    Distance { now: u64 },
    /// The sampling task; `value` is the formatted temperature of the sample
    /// that it was waiting for, and is not looked at otherwise.
    Temperature { value: &'a str },
    /// The button task, with the level of the button now.
    Button { level_high: bool },
}

/// A resumption, as specifications see it.
pub enum ResumeView {
    Display,
    Heartbeat,
    Servo,
    Distance { now: u64 },
    Temperature { value: Seq<char> },
    Button { level_high: bool },
}

impl<'a> View for Resume<'a> {
    type V = ResumeView;

    open spec fn view(&self) -> ResumeView {
        match self {
            Resume::Display => ResumeView::Display,
            Resume::Heartbeat => ResumeView::Heartbeat,
            Resume::Servo => ResumeView::Servo,
            Resume::Distance { now } => ResumeView::Distance { now: *now },
            Resume::Temperature { value } => ResumeView::Temperature { value: value@ },
            Resume::Button { level_high } => ResumeView::Button { level_high: *level_high },
        }
    }
}

/// What the executor has to do for the task that has just run.
pub struct Outcome {
    /// What the task waits for now.
    pub wait: Wait,
    /// What to draw on the cleared display and flush, if the task rendered.
    pub frame: Option<Frame>,
    /// The level to drive on the indicator, if the heartbeat ran.
    pub indicator: Option<Level>,
    /// The level to drive on the ranging trigger, if it changes.
    pub trigger: Option<Level>,
    /// The duty to set on the servo channel, if the sweep ran.
    pub duty: Option<u16>,
    /// Whether the temperature handed in was refused because its line does
    /// not fit the reading buffer; the reading is then as it was.
    pub rejected: bool,
}

/// An outcome, as specifications see it.
pub struct OutcomeView {
    pub wait: Wait,
    pub drawn: Option<Seq<DrawView>>,
    pub indicator: Option<Level>,
    pub trigger: Option<Level>,
    pub duty: Option<u16>,
    pub rejected: bool,
}

impl View for Outcome {
    type V = OutcomeView;

    open spec fn view(&self) -> OutcomeView {
        OutcomeView {
            wait: self.wait,
            drawn: match self.frame {
                Some(frame) => Some(frame.commands()),
                None => None,
            },
            indicator: self.indicator,
            trigger: self.trigger,
            duty: self.duty,
            rejected: self.rejected,
        }
    }
}

/// The shared state and the tasks.
pub struct Device {
    shared: AppState,
    heartbeat: HeartbeatTask,
    distance: DistanceTask,
    temperature: TemperatureTask,
    servo: ServoTask,
    button: ButtonTask,
    writes: Ghost<Seq<UpdateView>>,
}

/// A device, as specifications see it.
pub struct DeviceView {
    pub shared: AppStateView,
    pub heartbeat: HeartbeatTask,
    pub distance: DistanceTask,
    pub temperature: TemperatureTask,
    pub servo: ServoTask,
    pub button: ButtonTask,
    /// Every write to the shared state since start, in order.
    pub writes: Seq<UpdateView>,
}

impl View for Device {
    type V = DeviceView;

    closed spec fn view(&self) -> DeviceView {
        DeviceView {
            shared: self.shared@,
            heartbeat: self.heartbeat,
            distance: self.distance,
            temperature: self.temperature,
            servo: self.servo,
            button: self.button,
            writes: self.writes@,
        }
    }
}

/// The device at start, for a servo channel whose maximum duty is `max_duty`.
pub open spec fn booted(max_duty: u16) -> DeviceView {
    DeviceView {
        shared: initial_state(),
        heartbeat: HeartbeatTask::after(0),
        distance: DistanceTask::Start,
        temperature: TemperatureTask::Start,
        servo: ServoTask::after(ServoPresets::spec_from_max_duty(max_duty), 0),
        button: ButtonTask::Start,
        writes: Seq::empty(),
    }
}

/// The write that the step `r` performs on the device `d`, if it performs
/// one: the display moves on from the greeting, the ranging task publishes
/// a distance when the echo ends, the sampling task publishes every
/// sample, and the button task switches between readings and picture when
/// a press is confirmed outside the greeting.
pub open spec fn write_of(d: DeviceView, r: ResumeView) -> Option<UpdateView> {
    match r {
        ResumeView::Display => if d.shared.mode == DisplayMode::Intro {
            Some(UpdateView::AdvanceMode)
        } else {
            None
        },
        ResumeView::Heartbeat => None,
        ResumeView::Servo => None,
        ResumeView::Distance { now } => match d.distance.spec_step(now).publish {
            Some(centimeters) => Some(UpdateView::Distance(centimeters)),
            None => None,
        },
        ResumeView::Temperature { value } => if d.temperature.spec_step().publish {
            Some(UpdateView::Temperature(value))
        } else {
            None
        },
        ResumeView::Button { level_high } => if d.button.confirms(level_high) {
            press_write(d.shared)
        } else {
            None
        },
    }
}

/// The device after the step `r`: the task named by `r` is at its next
/// suspension point, the write of the step, if any, has been performed, and
/// all other tasks are where they were.
pub open spec fn resumed(d: DeviceView, r: ResumeView) -> DeviceView {
    let after_write = match write_of(d, r) {
        Some(u) => DeviceView { shared: applied(d.shared, u), writes: d.writes.push(u), ..d },
        None => d,
    };
    match r {
        ResumeView::Display => after_write,
        ResumeView::Heartbeat => DeviceView { heartbeat: d.heartbeat.spec_next(), ..after_write },
        ResumeView::Servo => DeviceView { servo: d.servo.spec_next(), ..after_write },
        ResumeView::Distance { now } => DeviceView {
            distance: d.distance.spec_next(now),
            ..after_write
        },
        ResumeView::Temperature { value } => DeviceView {
            temperature: d.temperature.spec_next(),
            ..after_write
        },
        ResumeView::Button { level_high } => DeviceView {
            button: d.button.spec_next(),
            ..after_write
        },
    }
}

/// What the step `r` on the device `d` asks of the executor.
pub open spec fn outcome_of(d: DeviceView, r: ResumeView) -> OutcomeView {
    match r {
        ResumeView::Display => OutcomeView {
            wait: Wait::Seconds(2),
            drawn: Some(drawn_for(d.shared)),
            indicator: None,
            trigger: None,
            duty: None,
            rejected: false,
        },
        ResumeView::Heartbeat => OutcomeView {
            wait: d.heartbeat.spec_step().wait,
            drawn: None,
            indicator: Some(d.heartbeat.spec_step().level),
            trigger: None,
            duty: None,
            rejected: false,
        },
        ResumeView::Servo => OutcomeView {
            wait: d.servo.spec_step().wait,
            drawn: None,
            indicator: None,
            trigger: None,
            duty: Some(d.servo.spec_step().duty),
            rejected: false,
        },
        ResumeView::Distance { now } => OutcomeView {
            wait: d.distance.spec_step(now).wait,
            drawn: None,
            indicator: None,
            trigger: d.distance.spec_step(now).trigger,
            duty: None,
            rejected: false,
        },
        ResumeView::Temperature { value } => OutcomeView {
            wait: d.temperature.spec_step().wait,
            drawn: None,
            indicator: None,
            trigger: None,
            duty: None,
            rejected: d.temperature.spec_step().publish && !temperature_fits(value),
        },
        ResumeView::Button { level_high } => OutcomeView {
            wait: d.button.spec_next().pending()->0,
            drawn: None,
            indicator: None,
            trigger: None,
            duty: None,
            rejected: false,
        },
    }
}

/// The device after the steps `rs`, taken in order from `d`.
pub open spec fn resumed_all(d: DeviceView, rs: Seq<ResumeView>) -> DeviceView
    decreases rs.len(),
{
    if rs.len() == 0 {
        d
    } else {
        resumed(resumed_all(d, rs.drop_last()), rs.last())
    }
}

impl DeviceView {
    /// The shared state is what the writes since start have made of it.
    pub open spec fn consistent(self) -> bool {
        self.shared == applied_all(initial_state(), self.writes)
    }
}

impl Device {
    /// The device at start.
    pub fn new(max_duty: u16) -> (r: Device)
        ensures
            r@ == booted(max_duty),
            r@.consistent(),
    {
        Device {
            shared: AppState::new(),
            heartbeat: HeartbeatTask::new(),
            distance: DistanceTask::new(),
            temperature: TemperatureTask::new(),
            servo: ServoTask::new(max_duty),
            button: ButtonTask::new(),
            writes: Ghost(Seq::empty()),
        }
    }

    /// The shared state, as a task that runs now would find it.
    pub fn shared(&self) -> (r: &AppState)
        ensures
            r@ == self@.shared,
    {
        &self.shared
    }

    /// Runs the task named by `r` to its next suspension point.
    pub fn resume(&mut self, r: Resume<'_>) -> (out: Outcome)
        ensures
            final(self)@ == resumed(old(self)@, r@),
            out@ == outcome_of(old(self)@, r@),
            old(self)@.consistent() ==> final(self)@.consistent(),
    {
        let ghost before = self@;
        let out = match r {
            Resume::Display => {
                let step = display_step(&mut self.shared);
                Outcome {
                    wait: step.wait,
                    frame: Some(step.frame),
                    indicator: None,
                    trigger: None,
                    duty: None,
                    rejected: false,
                }
            },
            Resume::Heartbeat => {
                let step = self.heartbeat.step();
                Outcome {
                    wait: step.wait,
                    frame: None,
                    indicator: Some(step.level),
                    trigger: None,
                    duty: None,
                    rejected: false,
                }
            },
            Resume::Servo => {
                let step = self.servo.step();
                Outcome {
                    wait: step.wait,
                    frame: None,
                    indicator: None,
                    trigger: None,
                    duty: Some(step.duty),
                    rejected: false,
                }
            },
            Resume::Distance { now } => {
                let step = self.distance.step(now);
                if let Some(centimeters) = step.publish {
                    let _ = self.shared.apply(Update::Distance(centimeters));
                }
                Outcome {
                    wait: step.wait,
                    frame: None,
                    indicator: None,
                    trigger: step.trigger,
                    duty: None,
                    rejected: false,
                }
            },
            Resume::Temperature { value } => {
                let step = self.temperature.step();
                let rejected = if step.publish {
                    self.shared.apply(Update::Temperature(value)).is_err()
                } else {
                    false
                };
                Outcome {
                    wait: step.wait,
                    frame: None,
                    indicator: None,
                    trigger: None,
                    duty: None,
                    rejected,
                }
            },
            Resume::Button { level_high } => {
                let step = self.button.step(level_high);
                if step.confirmed {
                    let _ = self.shared.press();
                }
                Outcome {
                    wait: step.wait,
                    frame: None,
                    indicator: None,
                    trigger: None,
                    duty: None,
                    rejected: false,
                }
            },
        };
        proof {
            if let Some(u) = write_of(before, r@) {
                self.writes@ = before.writes.push(u);
                assert(self.writes@.drop_last() =~= before.writes);
            }
        }
        out
    }
}

/// A step keeps the shared state consistent with the writes since start.
pub proof fn lemma_step_keeps_consistent(d: DeviceView, r: ResumeView)
    requires
        d.consistent(),
    ensures
        resumed(d, r).consistent(),
{
    if let Some(u) = write_of(d, r) {
        assert(d.writes.push(u).drop_last() =~= d.writes);
    }
}

/// However the executor orders the tasks, the shared state is what the
/// writes since start have made of it.
pub proof fn lemma_schedule_keeps_consistent(max_duty: u16, rs: Seq<ResumeView>)
    ensures
        resumed_all(booted(max_duty), rs).consistent(),
    decreases rs.len(),
{
    if rs.len() > 0 {
        lemma_schedule_keeps_consistent(max_duty, rs.drop_last());
        lemma_step_keeps_consistent(resumed_all(booted(max_duty), rs.drop_last()), rs.last());
    }
}

/// However the executor orders the tasks, a reader finds each reading
/// whole: empty if it was never written, and otherwise exactly the line of
/// the last write to it.
pub proof fn lemma_schedule_reads_whole(max_duty: u16, rs: Seq<ResumeView>)
    ensures
        ({
            let d = resumed_all(booted(max_duty), rs);
            &&& d.shared.readings.distance == (match last_distance(d.writes) {
                Some(centimeters) => distance_line(centimeters),
                None => Seq::<char>::empty(),
            })
            &&& d.shared.readings.temperature == (match last_temperature(d.writes) {
                Some(value) => temperature_line(value),
                None => Seq::<char>::empty(),
            })
        }),
{
    lemma_schedule_keeps_consistent(max_duty, rs);
    lemma_readings_are_whole(resumed_all(booted(max_duty), rs).writes);
}

/// However the executor orders the tasks, the greeting is shown until the
/// first mode advance and never again; after it, readings and picture take
/// turns, one advance each.
pub proof fn lemma_schedule_mode(max_duty: u16, rs: Seq<ResumeView>)
    ensures
        ({
            let d = resumed_all(booted(max_duty), rs);
            let n = advances(d.writes);
            d.shared.mode == (if n == 0 {
                DisplayMode::Intro
            } else if n % 2 == 1 {
                DisplayMode::DataDisplay
            } else {
                DisplayMode::Image
            })
        }),
{
    lemma_schedule_keeps_consistent(max_duty, rs);
    lemma_mode_follows_advances(resumed_all(booted(max_duty), rs).writes);
}

/// Once the greeting is over, no step of any task brings it back.
pub proof fn lemma_greeting_never_returns(d: DeviceView, r: ResumeView)
    requires
        d.shared.mode != DisplayMode::Intro,
    ensures
        resumed(d, r).shared.mode != DisplayMode::Intro,
{
}

/// Only a rendering ends the greeting: while the greeting is shown, a step
/// of any other task leaves it shown, whatever the button does.
pub proof fn lemma_only_render_ends_greeting(d: DeviceView, r: ResumeView)
    requires
        d.shared.mode == DisplayMode::Intro,
        !(r is Display),
    ensures
        resumed(d, r).shared.mode == DisplayMode::Intro,
{
}

/// The first rendering ends the greeting: whatever ran before it, the mode
/// after a step of the display task is not the greeting.
pub proof fn lemma_render_ends_greeting(d: DeviceView)
    ensures
        resumed(d, ResumeView::Display).shared.mode != DisplayMode::Intro,
        d.shared.mode == DisplayMode::Intro ==> resumed(d, ResumeView::Display).shared.mode
            == DisplayMode::DataDisplay,
{
}

} // verus!
