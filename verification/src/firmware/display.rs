//! What the display task draws, and when it moves the display on by itself.

use vstd::prelude::*;
use crate::firmware::mode::DisplayMode;
use crate::firmware::state::{applied, AppState, AppStateView, UpdateView};
use crate::firmware::text::{text_as_str, text_clone, text_of};
use crate::firmware::timing::Wait;

verus! {

/// Pause between two renderings, in seconds.
pub const REFRESH_SECONDS: u64 = 2;

/// Width of the picture, in pixels.
pub const PICTURE_WIDTH: u32 = 64;

/// One drawing primitive. Text is drawn from its top edge, in the 6x10
/// font, lit; a rectangle is stroked one pixel wide, lit, and not filled.
#[derive(Clone, Copy, Debug)]
pub enum DrawCommand<'a> {
    /// `content`, with its top-left corner at (`x`, `y`).
    Text { content: &'a str, x: i32, y: i32 },
    /// The outline of the rectangle with top-left corner (`x`, `y`).
    Rectangle { x: i32, y: i32, width: u32, height: u32 },
    /// The picture, `width` pixels wide, with its top-left corner at (`x`, `y`).
    Bitmap { x: i32, y: i32, width: u32 },
}

/// A drawing primitive, as specifications see it.
pub enum DrawView {
    Text { content: Seq<char>, x: i32, y: i32 },
    Rectangle { x: i32, y: i32, width: u32, height: u32 },
    Bitmap { x: i32, y: i32, width: u32 },
}

impl<'a> View for DrawCommand<'a> {
    type V = DrawView;

    open spec fn view(&self) -> DrawView {
        match self {
            DrawCommand::Text { content, x, y } => DrawView::Text { content: content@, x: *x, y: *y },
            DrawCommand::Rectangle { x, y, width, height } => DrawView::Rectangle {
                x: *x,
                y: *y,
                width: *width,
                height: *height,
            },
            DrawCommand::Bitmap { x, y, width } => DrawView::Bitmap { x: *x, y: *y, width: *width },
        }
    }
}

/// The primitives drawn for the shared state `s`, in drawing order: for the
/// greeting, the greeting text and a small square; for the readings, a
/// border, then the distance line and below it the temperature line; for
/// the picture, the picture alone.
pub open spec fn drawn_for(s: AppStateView) -> Seq<DrawView> {
    match s.mode {
        DisplayMode::Intro => seq![
            DrawView::Text { content: "Hello world!"@, x: 0, y: 0 },
            DrawView::Rectangle { x: 50, y: 12, width: 10, height: 10 },
        ],
        DisplayMode::DataDisplay => seq![
            DrawView::Rectangle { x: 1, y: 1, width: 127, height: 63 },
            DrawView::Text { content: s.readings.distance, x: 4, y: 4 },
            DrawView::Text { content: s.readings.temperature, x: 4, y: 15 },
        ],
        DisplayMode::Image => seq![DrawView::Bitmap { x: 32, y: 0, width: 64 }],
    }
}

/// The mode after a rendering in mode `m`: the greeting gives way to the
/// readings; the other modes stay.
pub open spec fn mode_after_render(m: DisplayMode) -> DisplayMode {
    if m == DisplayMode::Intro {
        DisplayMode::DataDisplay
    } else {
        m
    }
}

/// The shared state after a rendering in state `s`: a rendering of the
/// greeting is one mode advance, and any other rendering writes nothing.
pub open spec fn state_after_render(s: AppStateView) -> AppStateView {
    if s.mode == DisplayMode::Intro {
        applied(s, UpdateView::AdvanceMode)
    } else {
        s
    }
}

/// One rendering: a snapshot of what the display shows until the next one.
pub enum Frame {
    /// The greeting.
    Greeting,
    /// The readings as they were when the frame was taken.
    Readings { distance: heapless::String<64>, temperature: heapless::String<64> },
    /// The picture.
    Picture,
}

impl Frame {
    /// The primitives of the frame, in drawing order.
    pub open spec fn commands(self) -> Seq<DrawView> {
        match self {
            Frame::Greeting => seq![
                DrawView::Text { content: "Hello world!"@, x: 0, y: 0 },
                DrawView::Rectangle { x: 50, y: 12, width: 10, height: 10 },
            ],
            Frame::Readings { distance, temperature } => seq![
                DrawView::Rectangle { x: 1, y: 1, width: 127, height: 63 },
                DrawView::Text { content: text_of(distance), x: 4, y: 4 },
                DrawView::Text { content: text_of(temperature), x: 4, y: 15 },
            ],
            Frame::Picture => seq![DrawView::Bitmap { x: 32, y: 0, width: 64 }],
        }
    }

    /// The number of primitives of the frame.
    pub fn len(&self) -> (r: usize)
        ensures
            r == self.commands().len(),
    {
        match self {
            Frame::Greeting => 2,
            Frame::Readings { .. } => 3,
            Frame::Picture => 1,
        }
    }

    /// The primitive at `index` in drawing order, if the frame has that many.
    pub fn command(&self, index: usize) -> (r: Option<DrawCommand<'_>>)
        ensures
            index < self.commands().len() ==> r is Some && r->0@ == self.commands()[index as int],
            index >= self.commands().len() ==> r is None,
    {
        match self {
            Frame::Greeting => {
                if index == 0 {
                    Some(DrawCommand::Text { content: "Hello world!", x: 0, y: 0 })
                } else if index == 1 {
                    Some(DrawCommand::Rectangle { x: 50, y: 12, width: 10, height: 10 })
                } else {
                    None
                }
            },
            Frame::Readings { distance, temperature } => {
                if index == 0 {
                    Some(DrawCommand::Rectangle { x: 1, y: 1, width: 127, height: 63 })
                } else if index == 1 {
                    Some(DrawCommand::Text { content: text_as_str(distance), x: 4, y: 4 })
                } else if index == 2 {
                    Some(DrawCommand::Text { content: text_as_str(temperature), x: 4, y: 15 })
                } else {
                    None
                }
            },
            Frame::Picture => {
                if index == 0 {
                    Some(DrawCommand::Bitmap { x: 32, y: 0, width: PICTURE_WIDTH })
                } else {
                    None
                }
            },
        }
    }
}

/// What one step of the display task asks for.
pub struct DisplayStep {
    /// What to draw on the cleared display before it is flushed.
    pub frame: Frame,
    /// The delay until the next rendering.
    pub wait: Wait,
}

/// One step of the display task, made inside one critical section on the
/// shared state: it takes the frame for the state as it is, and if that is
/// the greeting it moves the display on to the readings. The readings
/// themselves are never changed. Drawing and flushing the frame come after
/// the critical section; a failed flush changes nothing here.
pub fn display_step(shared: &mut AppState) -> (r: DisplayStep)
    ensures
        r.frame.commands() == drawn_for(old(shared)@),
        r.wait == Wait::Seconds(2),
        final(shared)@ == state_after_render(old(shared)@),
        final(shared)@.mode == mode_after_render(old(shared)@.mode),
        final(shared)@.readings == old(shared)@.readings,
{
    let frame = match shared.get_state() {
        DisplayMode::Intro => {
            shared.change_state();
            Frame::Greeting
        },
        DisplayMode::DataDisplay => Frame::Readings {
            distance: text_clone(&shared.readings.distance),
            temperature: text_clone(&shared.readings.temperature),
        },
        DisplayMode::Image => Frame::Picture,
    };
    DisplayStep { frame, wait: Wait::Seconds(REFRESH_SECONDS) }
}

/// After exactly one rendering the greeting is over, and no rendering ever
/// brings it back: whatever the mode was, the mode after a rendering is not
/// the greeting, and a rendering in another mode leaves the mode alone.
pub proof fn lemma_greeting_shown_once(m: DisplayMode)
    ensures
        mode_after_render(DisplayMode::Intro) == DisplayMode::DataDisplay,
        mode_after_render(m) != DisplayMode::Intro,
        m != DisplayMode::Intro ==> mode_after_render(m) == m,
        mode_after_render(mode_after_render(m)) == mode_after_render(m),
{
}

} // verus!
