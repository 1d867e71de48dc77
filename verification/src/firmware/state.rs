//! The state that all tasks share, and the writes that change it.
//!
//! Every task reaches the state only inside a critical section, and a
//! critical section performs exactly one of the operations of this module.
//! A reader therefore sees the state as it is between two operations.

use vstd::prelude::*;
use vstd::utf8::*;
use crate::firmware::mode::DisplayMode;
use crate::firmware::text::{
    decimal, lemma_decimal_len_u64, lemma_utf8_len_ascii, lemma_utf8_len_concat, push_ascii,
    push_decimal, text_as_str, text_clear, text_new, text_of, text_push_str, utf8_len,
    TEXT_CAPACITY,
};

verus! {

/// The line that reports a distance of `centimeters`.
pub open spec fn distance_line(centimeters: u64) -> Seq<char> {
    "Distance: "@ + decimal(centimeters as nat) + " cm\r\n"@
}

/// The line that reports a temperature whose formatted value is `value`.
pub open spec fn temperature_line(value: Seq<char>) -> Seq<char> {
    "Temp: "@ + value + " C\n"@
}

/// Whether the line for the formatted temperature `value` fits a reading buffer.
pub open spec fn temperature_fits(value: Seq<char>) -> bool {
    utf8_len(value) + 9 <= 64
}

/// The latest formatted readings, each empty until its first sample.
pub struct SensorReadings {
    pub temperature: heapless::String<64>,
    pub distance: heapless::String<64>,
}

/// What a reader sees of the readings.
pub struct ReadingsView {
    pub temperature: Seq<char>,
    pub distance: Seq<char>,
}

impl View for SensorReadings {
    type V = ReadingsView;

    open spec fn view(&self) -> ReadingsView {
        ReadingsView { temperature: text_of(self.temperature), distance: text_of(self.distance) }
    }
}

/// A temperature text that does not fit the reading buffer.
#[derive(Clone, Copy, Debug, PartialEq, Eq, Structural)]
pub struct ReadingTooLong;

impl SensorReadings {
    /// Readings of a device that has not sampled yet.
    pub fn new() -> (r: SensorReadings)
        ensures
            r@.temperature == Seq::<char>::empty(),
            r@.distance == Seq::<char>::empty(),
    {
        SensorReadings { temperature: text_new(), distance: text_new() }
    }

    /// The latest distance line, empty before the first measurement.
    pub fn distance(&self) -> (r: &str)
        ensures
            r@ == self@.distance,
    {
        text_as_str(&self.distance)
    }

    /// The latest temperature line, empty before the first sample.
    pub fn temperature(&self) -> (r: &str)
        ensures
            r@ == self@.temperature,
    {
        text_as_str(&self.temperature)
    }

    /// Replaces the distance reading by the line for `centimeters`.
    pub fn record_distance(&mut self, centimeters: u64)
        ensures
            final(self)@.distance == distance_line(centimeters),
            final(self)@.temperature == old(self)@.temperature,
    {
        proof {
            reveal_strlit("Distance: ");
            reveal_strlit(" cm\r\n");
            lemma_decimal_len_u64(centimeters);
        }
        text_clear(&mut self.distance);
        push_ascii(&mut self.distance, "Distance: ");
        push_decimal(&mut self.distance, centimeters);
        push_ascii(&mut self.distance, " cm\r\n");
    }

    /// Replaces the temperature reading by the line for the formatted value
    /// `value`, if that line fits the buffer; otherwise nothing changes.
    pub fn record_temperature(&mut self, value: &str) -> (r: Result<(), ReadingTooLong>)
        ensures
            r is Ok <==> temperature_fits(value@),
            r is Ok ==> final(self)@.temperature == temperature_line(value@),
            r is Err ==> final(self)@.temperature == old(self)@.temperature,
            final(self)@.distance == old(self)@.distance,
    {
        if value.as_bytes().len() > TEXT_CAPACITY - 9 {
            return Err(ReadingTooLong);
        }
        proof {
            reveal_strlit("Temp: ");
            reveal_strlit(" C\n");
            lemma_utf8_len_ascii("Temp: "@);
            lemma_utf8_len_ascii(" C\n"@);
            lemma_utf8_len_ascii(Seq::<char>::empty());
            lemma_utf8_len_concat("Temp: "@, value@);
            assert(Seq::<char>::empty() + "Temp: "@ =~= "Temp: "@);
        }
        text_clear(&mut self.temperature);
        let head = text_push_str(&mut self.temperature, "Temp: ");
        assert(head is Ok);
        let body = text_push_str(&mut self.temperature, value);
        assert(body is Ok);
        let tail = text_push_str(&mut self.temperature, " C\n");
        assert(tail is Ok);
        Ok(())
    }
}

impl Default for SensorReadings {
    fn default() -> (r: SensorReadings)
        ensures
            r@.temperature == Seq::<char>::empty(),
            r@.distance == Seq::<char>::empty(),
    {
        SensorReadings::new()
    }
}

/// The state shared by all tasks: the display mode and the readings.
pub struct AppState {
    pub mode: DisplayMode,
    pub readings: SensorReadings,
}

/// What a reader sees of the shared state.
pub struct AppStateView {
    pub mode: DisplayMode,
    pub readings: ReadingsView,
}

impl View for AppState {
    type V = AppStateView;

    open spec fn view(&self) -> AppStateView {
        AppStateView { mode: self.mode, readings: self.readings@ }
    }
}

/// The shared state at start: the greeting, and no readings.
pub open spec fn initial_state() -> AppStateView {
    AppStateView {
        mode: DisplayMode::Intro,
        readings: ReadingsView { temperature: Seq::empty(), distance: Seq::empty() },
    }
}

/// One write to the shared state, as one critical section performs it.
pub enum Update<'a> {
    /// A new distance, in centimeters.
    Distance(u64),
    /// A new temperature, as its formatted value.
    Temperature(&'a str),
    /// The display moves on to its next mode.
    AdvanceMode,
}

/// A write, as specifications see it.
pub enum UpdateView {
    Distance(u64),
    Temperature(Seq<char>),
    AdvanceMode,
}

impl<'a> View for Update<'a> {
    type V = UpdateView;

    open spec fn view(&self) -> UpdateView {
        match self {
            Update::Distance(centimeters) => UpdateView::Distance(*centimeters),
            Update::Temperature(value) => UpdateView::Temperature(value@),
            Update::AdvanceMode => UpdateView::AdvanceMode,
        }
    }
}

/// The state after one write to `s`. A temperature that does not fit
/// changes nothing.
pub open spec fn applied(s: AppStateView, u: UpdateView) -> AppStateView {
    match u {
        UpdateView::Distance(centimeters) => AppStateView {
            mode: s.mode,
            readings: ReadingsView {
                temperature: s.readings.temperature,
                distance: distance_line(centimeters),
            },
        },
        UpdateView::Temperature(value) => if temperature_fits(value) {
            AppStateView {
                mode: s.mode,
                readings: ReadingsView {
                    temperature: temperature_line(value),
                    distance: s.readings.distance,
                },
            }
        } else {
            s
        },
        UpdateView::AdvanceMode => AppStateView { mode: s.mode.spec_next(), readings: s.readings },
    }
}

/// The write that a confirmed button press makes in state `s`, if it makes
/// one: a press switches between readings and picture, and during the
/// greeting it writes nothing.
pub open spec fn press_write(s: AppStateView) -> Option<UpdateView> {
    if s.mode == DisplayMode::Intro {
        None
    } else {
        Some(UpdateView::AdvanceMode)
    }
}

/// The state after a confirmed button press in state `s`.
pub open spec fn pressed(s: AppStateView) -> AppStateView {
    match press_write(s) {
        Some(u) => applied(s, u),
        None => s,
    }
}

/// The state after the writes `us`, performed in order on `s`.
pub open spec fn applied_all(s: AppStateView, us: Seq<UpdateView>) -> AppStateView
    decreases us.len(),
{
    if us.len() == 0 {
        s
    } else {
        applied(applied_all(s, us.drop_last()), us.last())
    }
}

/// The distance of the last distance write among `us`, if there is one.
pub open spec fn last_distance(us: Seq<UpdateView>) -> Option<u64>
    decreases us.len(),
{
    if us.len() == 0 {
        None
    } else {
        match us.last() {
            UpdateView::Distance(centimeters) => Some(centimeters),
            _ => last_distance(us.drop_last()),
        }
    }
}

/// The value of the last temperature write among `us` that fits, if there is one.
pub open spec fn last_temperature(us: Seq<UpdateView>) -> Option<Seq<char>>
    decreases us.len(),
{
    if us.len() == 0 {
        None
    } else {
        match us.last() {
            UpdateView::Temperature(value) => if temperature_fits(value) {
                Some(value)
            } else {
                last_temperature(us.drop_last())
            },
            _ => last_temperature(us.drop_last()),
        }
    }
}

/// The number of mode advances among `us`.
pub open spec fn advances(us: Seq<UpdateView>) -> nat
    decreases us.len(),
{
    if us.len() == 0 {
        0
    } else {
        advances(us.drop_last()) + (if us.last() is AdvanceMode {
            1nat
        } else {
            0nat
        })
    }
}

impl AppState {
    /// The state at start: the greeting, and no readings.
    pub fn new() -> (r: AppState)
        ensures
            r@ == initial_state(),
    {
        AppState { mode: DisplayMode::Intro, readings: SensorReadings::new() }
    }

    /// Moves the display on to its next mode, as the display task does
    /// after the greeting and a confirmed press does after that.
    pub fn change_state(&mut self)
        ensures
            final(self)@ == applied(old(self)@, UpdateView::AdvanceMode),
    {
        self.mode = self.mode.next();
    }

    /// Takes a confirmed button press: from the readings the display moves
    /// to the picture and from the picture to the readings. During the
    /// greeting the press changes nothing; only a rendering ends the
    /// greeting. Returns whether the mode changed.
    pub fn press(&mut self) -> (changed: bool)
        ensures
            final(self)@ == pressed(old(self)@),
            changed == (old(self)@.mode != DisplayMode::Intro),
    {
        match self.mode {
            DisplayMode::Intro => false,
            _ => {
                self.change_state();
                true
            },
        }
    }

    /// The current display mode.
    pub fn get_state(&self) -> (r: DisplayMode)
        ensures
            r == self@.mode,
    {
        self.mode
    }

    /// Performs one write. Fails, and changes nothing, exactly when the write
    /// is a temperature whose line does not fit the reading buffer.
    pub fn apply(&mut self, update: Update<'_>) -> (r: Result<(), ReadingTooLong>)
        ensures
            final(self)@ == applied(old(self)@, update@),
            r is Err <==> (update@ matches UpdateView::Temperature(value) && !temperature_fits(value)),
    {
        match update {
            Update::Distance(centimeters) => {
                self.readings.record_distance(centimeters);
                Ok(())
            },
            Update::Temperature(value) => self.readings.record_temperature(value),
            Update::AdvanceMode => {
                self.change_state();
                Ok(())
            },
        }
    }
}

/// Whatever writes were performed since start, and in whatever order the
/// tasks performed them, a reader finds each reading whole: it is empty if
/// it was never written, and otherwise it is exactly the line of the last
/// write to it. No reading mixes two writes, and no write to one reading
/// disturbs the other.
pub proof fn lemma_readings_are_whole(us: Seq<UpdateView>)
    ensures
        applied_all(initial_state(), us).readings.distance == (match last_distance(us) {
            Some(centimeters) => distance_line(centimeters),
            None => Seq::<char>::empty(),
        }),
        applied_all(initial_state(), us).readings.temperature == (match last_temperature(us) {
            Some(value) => temperature_line(value),
            None => Seq::<char>::empty(),
        }),
    decreases us.len(),
{
    if us.len() > 0 {
        lemma_readings_are_whole(us.drop_last());
    }
}

/// A reading is overwritten, never blended: the line that a write leaves
/// depends on the written value alone, not on the reading that was there
/// before, nor on the other reading or the mode. Two writes of the same
/// value leave the same line, whatever the states they are made in.
pub proof fn lemma_writes_forget(
    s1: AppStateView,
    s2: AppStateView,
    value: Seq<char>,
    centimeters: u64,
)
    ensures
        temperature_fits(value) ==> applied(s1, UpdateView::Temperature(value)).readings.temperature
            == temperature_line(value),
        temperature_fits(value) ==> applied(s2, UpdateView::Temperature(value)).readings.temperature
            == temperature_line(value),
        applied(s1, UpdateView::Distance(centimeters)).readings.distance == distance_line(
            centimeters,
        ),
        applied(s2, UpdateView::Distance(centimeters)).readings.distance == distance_line(
            centimeters,
        ),
        applied(s1, UpdateView::Temperature(value)).readings.distance == s1.readings.distance,
        applied(s1, UpdateView::Temperature(value)).mode == s1.mode,
        applied(s1, UpdateView::Distance(centimeters)).readings.temperature
            == s1.readings.temperature,
        applied(s1, UpdateView::Distance(centimeters)).mode == s1.mode,
{
}

/// The mode depends on the number of advances alone, not on the sensor
/// writes between them: started at the greeting, the first advance shows
/// the readings, later advances alternate between readings and picture,
/// and the greeting is never shown again.
pub proof fn lemma_mode_follows_advances(us: Seq<UpdateView>)
    ensures
        applied_all(initial_state(), us).mode == DisplayMode::Intro.after(advances(us)),
        advances(us) >= 1 ==> applied_all(initial_state(), us).mode == (if advances(us) % 2 == 1 {
            DisplayMode::DataDisplay
        } else {
            DisplayMode::Image
        }),
        advances(us) == 0 ==> applied_all(initial_state(), us).mode == DisplayMode::Intro,
    decreases us.len(),
{
    if us.len() > 0 {
        lemma_mode_follows_advances(us.drop_last());
    }
    if advances(us) >= 1 {
        crate::firmware::mode::lemma_mode_cycle(advances(us));
    }
}

} // verus!
