//! The configuration screens and the field that is being edited.

use vstd::prelude::*;
use vstd::string::StringExecFns;
use crate::strings::{
    ends_with, has_suffix, lemma_replaced_ending, replace, replaced, trim, trimmed,
};

verus! {

/// The configuration screen that is open.
#[derive(Clone, Copy, Debug, PartialEq, Eq, Structural)]
pub enum ConfigState {
    Files,
    Mod,
    Demod,
    Plot,
}

/// The field that has the focus.
#[derive(Clone, Copy, Debug, PartialEq, Eq, Structural)]
pub enum CurrentlyEditingConfig {
    InputFile,
    OutputFile,
    ModFreq,
    DemodFreqError,
    DemodPhaseError,
    PlotMSG,
    PlotDSB,
    PlotUSB,
    PlotLSB,
    PlotDemod,
}

/// The number of plot check boxes.
pub const CHECKBOX_COUNT: usize = 5;

/// The position of a plot check box among the check boxes; none for the
/// other fields.
pub open spec fn checkbox_index(checkbox: CurrentlyEditingConfig) -> Option<usize> {
    match checkbox {
        CurrentlyEditingConfig::PlotMSG => Some(0usize),
        CurrentlyEditingConfig::PlotDSB => Some(1usize),
        CurrentlyEditingConfig::PlotUSB => Some(2usize),
        CurrentlyEditingConfig::PlotLSB => Some(3usize),
        CurrentlyEditingConfig::PlotDemod => Some(4usize),
        _ => None,
    }
}

/// The plot check box at position `indx`, if there is one.
pub open spec fn checkbox_at(indx: usize) -> Option<CurrentlyEditingConfig> {
    if indx == 0 {
        Some(CurrentlyEditingConfig::PlotMSG)
    } else if indx == 1 {
        Some(CurrentlyEditingConfig::PlotDSB)
    } else if indx == 2 {
        Some(CurrentlyEditingConfig::PlotUSB)
    } else if indx == 3 {
        Some(CurrentlyEditingConfig::PlotLSB)
    } else if indx == 4 {
        Some(CurrentlyEditingConfig::PlotDemod)
    } else {
        None
    }
}

/// The position of a plot check box among the check boxes.
pub fn get_checkbox_index(checkbox: &CurrentlyEditingConfig) -> (r: Option<usize>)
    ensures
        r == checkbox_index(*checkbox),
{
    match checkbox {
        CurrentlyEditingConfig::PlotMSG => Some(0),
        CurrentlyEditingConfig::PlotDSB => Some(1),
        CurrentlyEditingConfig::PlotUSB => Some(2),
        CurrentlyEditingConfig::PlotLSB => Some(3),
        CurrentlyEditingConfig::PlotDemod => Some(4),
        _ => None,
    }
}

/// The plot check box at position `indx`.
pub fn get_checkbox_by_index(indx: usize) -> (r: Option<CurrentlyEditingConfig>)
    ensures
        r == checkbox_at(indx),
{
    match indx {
        0 => Some(CurrentlyEditingConfig::PlotMSG),
        1 => Some(CurrentlyEditingConfig::PlotDSB),
        2 => Some(CurrentlyEditingConfig::PlotUSB),
        3 => Some(CurrentlyEditingConfig::PlotLSB),
        4 => Some(CurrentlyEditingConfig::PlotDemod),
        _ => None,
    }
}

/// Position and check box determine each other: a check box is found at
/// its own position, and the check box at a position has that position.
pub proof fn lemma_checkbox_round_trip(checkbox: CurrentlyEditingConfig, indx: usize)
    ensures
        checkbox_index(checkbox) matches Some(i) ==> checkbox_at(i) == Some(checkbox) && i < 5,
        checkbox_at(indx) matches Some(c) ==> checkbox_index(c) == Some(indx),
        checkbox_at(indx) is Some <==> indx < 5,
{
}

/// The field that gets the focus after `current` on `screen`, going
/// forward: the fields of the screen in order, then none, then the first
/// again. A focus that does not belong to the screen is dropped.
pub open spec fn next_field(
    screen: ConfigState,
    current: Option<CurrentlyEditingConfig>,
) -> Option<CurrentlyEditingConfig> {
    match screen {
        ConfigState::Files => match current {
            None => Some(CurrentlyEditingConfig::InputFile),
            Some(CurrentlyEditingConfig::InputFile) => Some(CurrentlyEditingConfig::OutputFile),
            _ => None,
        },
        ConfigState::Mod => match current {
            None => Some(CurrentlyEditingConfig::ModFreq),
            _ => None,
        },
        ConfigState::Demod => match current {
            None => Some(CurrentlyEditingConfig::DemodFreqError),
            Some(CurrentlyEditingConfig::DemodFreqError) => Some(
                CurrentlyEditingConfig::DemodPhaseError,
            ),
            _ => None,
        },
        ConfigState::Plot => match current {
            None => Some(CurrentlyEditingConfig::PlotMSG),
            Some(CurrentlyEditingConfig::PlotMSG) => Some(CurrentlyEditingConfig::PlotDSB),
            Some(CurrentlyEditingConfig::PlotDSB) => Some(CurrentlyEditingConfig::PlotUSB),
            Some(CurrentlyEditingConfig::PlotUSB) => Some(CurrentlyEditingConfig::PlotLSB),
            Some(CurrentlyEditingConfig::PlotLSB) => Some(CurrentlyEditingConfig::PlotDemod),
            _ => None,
        },
    }
}

/// The field that gets the focus after `current` on `screen`, going
/// backward.
pub open spec fn prev_field(
    screen: ConfigState,
    current: Option<CurrentlyEditingConfig>,
) -> Option<CurrentlyEditingConfig> {
    match screen {
        ConfigState::Files => match current {
            None => Some(CurrentlyEditingConfig::OutputFile),
            Some(CurrentlyEditingConfig::OutputFile) => Some(CurrentlyEditingConfig::InputFile),
            _ => None,
        },
        ConfigState::Mod => match current {
            None => Some(CurrentlyEditingConfig::ModFreq),
            _ => None,
        },
        ConfigState::Demod => match current {
            None => Some(CurrentlyEditingConfig::DemodPhaseError),
            Some(CurrentlyEditingConfig::DemodPhaseError) => Some(
                CurrentlyEditingConfig::DemodFreqError,
            ),
            _ => None,
        },
        ConfigState::Plot => match current {
            None => Some(CurrentlyEditingConfig::PlotDemod),
            Some(CurrentlyEditingConfig::PlotDemod) => Some(CurrentlyEditingConfig::PlotLSB),
            Some(CurrentlyEditingConfig::PlotLSB) => Some(CurrentlyEditingConfig::PlotUSB),
            Some(CurrentlyEditingConfig::PlotUSB) => Some(CurrentlyEditingConfig::PlotDSB),
            Some(CurrentlyEditingConfig::PlotDSB) => Some(CurrentlyEditingConfig::PlotMSG),
            _ => None,
        },
    }
}

/// Whether `field` is one of the fields of `screen`.
pub open spec fn belongs_to(screen: ConfigState, field: CurrentlyEditingConfig) -> bool {
    match screen {
        ConfigState::Files => field == CurrentlyEditingConfig::InputFile || field
            == CurrentlyEditingConfig::OutputFile,
        ConfigState::Mod => field == CurrentlyEditingConfig::ModFreq,
        ConfigState::Demod => field == CurrentlyEditingConfig::DemodFreqError || field
            == CurrentlyEditingConfig::DemodPhaseError,
        ConfigState::Plot => checkbox_index(field) is Some,
    }
}

/// The name of the plot file of check box `checkbox`, derived from the
/// name `name` of the plot of the message: the message keeps the name, and
/// every other plot has its own ending in place of `.png`.
pub open spec fn plot_name(name: Seq<char>, checkbox: CurrentlyEditingConfig) -> Seq<char> {
    match checkbox {
        CurrentlyEditingConfig::PlotDSB => replaced(name, ".png"@, "_dsb.png"@),
        CurrentlyEditingConfig::PlotUSB => replaced(name, ".png"@, "_ssb_upper.png"@),
        CurrentlyEditingConfig::PlotLSB => replaced(name, ".png"@, "_ssb_lower.png"@),
        CurrentlyEditingConfig::PlotDemod => replaced(name, ".png"@, "_demod.png"@),
        _ => name,
    }
}

/// A plot name that ends in `.png` and holds no other dot gets the ending
/// of its check box: the plot of the message keeps the name, and for the
/// others `_dsb`, `_ssb_upper`, `_ssb_lower` or `_demod` is put in front
/// of `.png`.
pub proof fn lemma_plot_name_ending(stem: Seq<char>, checkbox: CurrentlyEditingConfig)
    requires
        forall|i: int| 0 <= i < stem.len() ==> stem[i] != '.',
    ensures
        plot_name(stem + ".png"@, checkbox) == (match checkbox {
            CurrentlyEditingConfig::PlotDSB => stem + "_dsb.png"@,
            CurrentlyEditingConfig::PlotUSB => stem + "_ssb_upper.png"@,
            CurrentlyEditingConfig::PlotLSB => stem + "_ssb_lower.png"@,
            CurrentlyEditingConfig::PlotDemod => stem + "_demod.png"@,
            _ => stem + ".png"@,
        }),
{
    reveal_strlit(".png");
    lemma_replaced_ending(stem, ".png"@, "_dsb.png"@);
    lemma_replaced_ending(stem, ".png"@, "_ssb_upper.png"@);
    lemma_replaced_ending(stem, ".png"@, "_ssb_lower.png"@);
    lemma_replaced_ending(stem, ".png"@, "_demod.png"@);
}

/// The name reached after the first `n` check boxes, and the plot to load
/// so far, if any: every ticked box renames the name reached before it and
/// asks for the plot of that name.
pub open spec fn loaded(name: Seq<char>, boxes: Seq<bool>, n: nat) -> (Seq<char>, Option<Seq<char>>)
    decreases n,
{
    if n == 0 {
        (name, None)
    } else {
        let before = loaded(name, boxes, (n - 1) as nat);
        if n <= boxes.len() && boxes[n - 1] && n <= 5 {
            let renamed = plot_name(before.0, checkbox_at((n - 1) as usize)->0);
            (renamed, Some(renamed))
        } else {
            before
        }
    }
}

/// What is wrong with the inputs, as the message shown to the user; none
/// if they are in order. The first fault found is reported: an empty input
/// path, an input file that does not exist, an output name that is neither
/// empty nor ends in `.png`, a carrier frequency that is not positive.
pub open spec fn input_problem(
    input_path: Seq<char>,
    input_exists: bool,
    output_file: Seq<char>,
    carrier_positive: bool,
) -> Option<Seq<char>> {
    if input_path.len() == 0 {
        Some("Input wave file path is empty."@)
    } else if !input_exists {
        Some("Input wave file does not exist: "@ + input_path)
    } else if output_file.len() != 0 && !has_suffix(output_file, ".png"@) {
        Some("Output file should have .png extension: "@ + output_file)
    } else if !carrier_positive {
        Some("Carrier frequency must be greater than 0 Hz."@)
    } else {
        None
    }
}

/// Whether the editor reports an error once the inputs have been checked.
pub open spec fn checked_has_error(
    input_file: Seq<char>,
    input_exists: bool,
    output_file: Seq<char>,
    carrier_positive: bool,
) -> bool {
    input_problem(trimmed(input_file), input_exists, output_file, carrier_positive) is Some
}

/// The error line once the inputs have been checked: the message of the
/// first fault, or nothing.
pub open spec fn checked_error(
    input_file: Seq<char>,
    input_exists: bool,
    output_file: Seq<char>,
    carrier_positive: bool,
) -> Seq<char> {
    match input_problem(trimmed(input_file), input_exists, output_file, carrier_positive) {
        Some(message) => message,
        None => Seq::<char>::empty(),
    }
}

/// The view of an optional string.
pub open spec fn text_view(o: Option<String>) -> Option<Seq<char>> {
    match o {
        Some(s) => Some(s@),
        None => None,
    }
}

/// The screens and the focus of the configuration editor, with its file
/// names, its plot check boxes and its error line.
pub struct Editor {
    pub state: ConfigState,
    pub input_file: String,
    pub output_file: String,
    pub current_editing_config: Option<CurrentlyEditingConfig>,
    pub checkboxes: Vec<bool>,
    pub has_error: bool,
    pub error_buffer: String,
}

impl Editor {
    /// Whether `self` and `other` agree on everything but the error line.
    pub open spec fn same_settings(self, other: Editor) -> bool {
        &&& self.state == other.state
        &&& self.input_file@ == other.input_file@
        &&& self.output_file@ == other.output_file@
        &&& self.current_editing_config == other.current_editing_config
        &&& self.checkboxes@ == other.checkboxes@
    }

    /// Whether `self` and `other` have the same error line.
    pub open spec fn same_error(self, other: Editor) -> bool {
        &&& self.has_error == other.has_error
        &&& self.error_buffer@ == other.error_buffer@
    }

    /// The editor at start: the file screen, no focus, five clear boxes and
    /// no error.
    pub fn new(input_file: String, output_file: String) -> (r: Editor)
        ensures
            r.state == ConfigState::Files,
            r.input_file@ == input_file@,
            r.output_file@ == output_file@,
            r.current_editing_config is None,
            r.checkboxes@ == seq![false, false, false, false, false],
            !r.has_error,
            r.error_buffer@ == Seq::<char>::empty(),
    {
        let mut checkboxes: Vec<bool> = Vec::new();
        checkboxes.push(false);
        checkboxes.push(false);
        checkboxes.push(false);
        checkboxes.push(false);
        checkboxes.push(false);
        assert(checkboxes@ =~= seq![false, false, false, false, false]);
        Editor {
            state: ConfigState::Files,
            input_file,
            output_file,
            current_editing_config: None,
            checkboxes,
            has_error: false,
            error_buffer: String::new(),
        }
    }

    /// The path of the input file: the input field without surrounding
    /// white space.
    pub fn input_path(&self) -> (r: &str)
        ensures
            r@ == trimmed(self.input_file@),
    {
        trim(self.input_file.as_str())
    }

    /// Whether the error line of `self` is what a check of the inputs of
    /// `before` gives.
    pub open spec fn checked_from(
        self,
        before: Editor,
        input_exists: bool,
        carrier_positive: bool,
    ) -> bool {
        &&& self.has_error == checked_has_error(
            before.input_file@,
            input_exists,
            before.output_file@,
            carrier_positive,
        )
        &&& self.error_buffer@ == checked_error(
            before.input_file@,
            input_exists,
            before.output_file@,
            carrier_positive,
        )
    }

    /// Opens `state`, drops the focus and checks the inputs. `input_exists`
    /// says whether a file exists at `input_path()`, `carrier_positive`
    /// whether the carrier frequency is above zero.
    pub fn change_state_to(&mut self, state: ConfigState, input_exists: bool, carrier_positive: bool)
        ensures
            final(self).state == state,
            final(self).current_editing_config is None,
            final(self).input_file@ == old(self).input_file@,
            final(self).output_file@ == old(self).output_file@,
            final(self).checkboxes@ == old(self).checkboxes@,
            final(self).checked_from(*old(self), input_exists, carrier_positive),
    {
        self.state = state;
        self.current_editing_config = None;
        self.validate_inputs(input_exists, carrier_positive);
    }

    /// Moves the focus forward on the open screen and checks the inputs.
    /// `input_exists` says whether a file exists at `input_path()`,
    /// `carrier_positive` whether the carrier frequency is above zero.
    pub fn next_editing_config(&mut self, input_exists: bool, carrier_positive: bool)
        ensures
            final(self).current_editing_config == next_field(
                old(self).state,
                old(self).current_editing_config,
            ),
            final(self).state == old(self).state,
            final(self).input_file@ == old(self).input_file@,
            final(self).output_file@ == old(self).output_file@,
            final(self).checkboxes@ == old(self).checkboxes@,
            final(self).checked_from(*old(self), input_exists, carrier_positive),
    {
        self.current_editing_config = match self.state {
            ConfigState::Files => match self.current_editing_config {
                None => Some(CurrentlyEditingConfig::InputFile),
                Some(CurrentlyEditingConfig::InputFile) => Some(CurrentlyEditingConfig::OutputFile),
                _ => None,
            },
            ConfigState::Mod => match self.current_editing_config {
                None => Some(CurrentlyEditingConfig::ModFreq),
                _ => None,
            },
            ConfigState::Demod => match self.current_editing_config {
                None => Some(CurrentlyEditingConfig::DemodFreqError),
                Some(CurrentlyEditingConfig::DemodFreqError) => Some(
                    CurrentlyEditingConfig::DemodPhaseError,
                ),
                _ => None,
            },
            ConfigState::Plot => match self.current_editing_config {
                None => Some(CurrentlyEditingConfig::PlotMSG),
                Some(CurrentlyEditingConfig::PlotMSG) => Some(CurrentlyEditingConfig::PlotDSB),
                Some(CurrentlyEditingConfig::PlotDSB) => Some(CurrentlyEditingConfig::PlotUSB),
                Some(CurrentlyEditingConfig::PlotUSB) => Some(CurrentlyEditingConfig::PlotLSB),
                Some(CurrentlyEditingConfig::PlotLSB) => Some(CurrentlyEditingConfig::PlotDemod),
                _ => None,
            },
        };
        self.validate_inputs(input_exists, carrier_positive);
    }

    /// Moves the focus backward on the open screen and checks the inputs.
    /// `input_exists` says whether a file exists at `input_path()`,
    /// `carrier_positive` whether the carrier frequency is above zero.
    pub fn prev_editing_config(&mut self, input_exists: bool, carrier_positive: bool)
        ensures
            final(self).current_editing_config == prev_field(
                old(self).state,
                old(self).current_editing_config,
            ),
            final(self).state == old(self).state,
            final(self).input_file@ == old(self).input_file@,
            final(self).output_file@ == old(self).output_file@,
            final(self).checkboxes@ == old(self).checkboxes@,
            final(self).checked_from(*old(self), input_exists, carrier_positive),
    {
        self.current_editing_config = match self.state {
            ConfigState::Files => match self.current_editing_config {
                None => Some(CurrentlyEditingConfig::OutputFile),
                Some(CurrentlyEditingConfig::OutputFile) => Some(CurrentlyEditingConfig::InputFile),
                _ => None,
            },
            ConfigState::Mod => match self.current_editing_config {
                None => Some(CurrentlyEditingConfig::ModFreq),
                _ => None,
            },
            ConfigState::Demod => match self.current_editing_config {
                None => Some(CurrentlyEditingConfig::DemodPhaseError),
                Some(CurrentlyEditingConfig::DemodPhaseError) => Some(
                    CurrentlyEditingConfig::DemodFreqError,
                ),
                _ => None,
            },
            ConfigState::Plot => match self.current_editing_config {
                None => Some(CurrentlyEditingConfig::PlotDemod),
                Some(CurrentlyEditingConfig::PlotDemod) => Some(CurrentlyEditingConfig::PlotLSB),
                Some(CurrentlyEditingConfig::PlotLSB) => Some(CurrentlyEditingConfig::PlotUSB),
                Some(CurrentlyEditingConfig::PlotUSB) => Some(CurrentlyEditingConfig::PlotDSB),
                Some(CurrentlyEditingConfig::PlotDSB) => Some(CurrentlyEditingConfig::PlotMSG),
                _ => None,
            },
        };
        self.validate_inputs(input_exists, carrier_positive);
    }

    /// Removes the error.
    pub fn clear_error(&mut self)
        ensures
            !final(self).has_error,
            final(self).error_buffer@ == Seq::<char>::empty(),
            final(self).same_settings(*old(self)),
    {
        self.has_error = false;
        self.error_buffer = String::new();
    }

    /// Reports `msg` as the error.
    pub fn set_error(&mut self, msg: String)
        ensures
            final(self).has_error,
            final(self).error_buffer@ == msg@,
            final(self).same_settings(*old(self)),
    {
        self.has_error = true;
        self.error_buffer = msg;
    }

    /// Checks the inputs and reports the first fault found, or removes the
    /// error if there is none. `input_exists` says whether a file exists at
    /// `input_path()`, `carrier_positive` whether the carrier frequency is
    /// above zero.
    pub fn validate_inputs(&mut self, input_exists: bool, carrier_positive: bool)
        ensures
            final(self).has_error == (input_problem(
                trimmed(old(self).input_file@),
                input_exists,
                old(self).output_file@,
                carrier_positive,
            ) is Some),
            final(self).error_buffer@ == (match input_problem(
                trimmed(old(self).input_file@),
                input_exists,
                old(self).output_file@,
                carrier_positive,
            ) {
                Some(message) => message,
                None => Seq::<char>::empty(),
            }),
            final(self).same_settings(*old(self)),
    {
        let fault = input_fault(
            trim(self.input_file.as_str()),
            input_exists,
            self.output_file.as_str(),
            carrier_positive,
        );
        match fault {
            Some(message) => self.set_error(message),
            None => self.clear_error(),
        }
    }

    /// Ticks the check box that has the focus and clears all others. With
    /// the focus elsewhere, or on no field, nothing changes.
    pub fn toggle_checkbox(&mut self)
        requires
            old(self).current_editing_config matches Some(field) ==> (checkbox_index(
                field,
            ) matches Some(i) ==> i < old(self).checkboxes@.len()),
        ensures
            final(self).state == old(self).state,
            final(self).input_file@ == old(self).input_file@,
            final(self).output_file@ == old(self).output_file@,
            final(self).current_editing_config == old(self).current_editing_config,
            final(self).same_error(*old(self)),
            match old(self).current_editing_config {
                Some(field) => match checkbox_index(field) {
                    Some(i) => final(self).checkboxes@ == Seq::new(
                        old(self).checkboxes@.len(),
                        |j: int| j == i,
                    ),
                    None => final(self).checkboxes@ == old(self).checkboxes@,
                },
                None => final(self).checkboxes@ == old(self).checkboxes@,
            },
    {
        if let Some(field) = self.current_editing_config {
            if let Some(indx) = get_checkbox_index(&field) {
                let count: usize = self.checkboxes.len();
                let mut cleared: Vec<bool> = Vec::new();
                let mut j: usize = 0;
                while j < count
                    invariant
                        j <= count,
                        cleared@ == Seq::new(j as nat, |k: int| k == indx),
                    decreases count - j,
                {
                    cleared.push(j == indx);
                    j = j + 1;
                    assert(cleared@ =~= Seq::new(j as nat, |k: int| k == indx));
                }
                self.checkboxes = cleared;
            }
        }
    }

    /// The name of the plot to show: the plot of the last ticked check box,
    /// under the name that the ticked boxes before it have left; none if no
    /// box is ticked.
    pub fn image_loader(&self) -> (r: Option<String>)
        ensures
            text_view(r) == loaded(
                self.output_file@,
                self.checkboxes@,
                self.checkboxes@.len(),
            ).1,
    {
        let mut name: String = self.output_file.clone();
        let mut output: Option<String> = None;
        let mut indx: usize = 0;
        while indx < self.checkboxes.len()
            invariant
                indx <= self.checkboxes@.len(),
                name@ == loaded(self.output_file@, self.checkboxes@, indx as nat).0,
                text_view(output) == loaded(self.output_file@, self.checkboxes@, indx as nat).1,
            decreases self.checkboxes@.len() - indx,
        {
            if self.checkboxes[indx] {
                if let Some(plot) = get_checkbox_by_index(indx) {
                    name = plot_file(name, plot);
                    output = Some(name.clone());
                }
            }
            indx = indx + 1;
        }
        output
    }
}

/// The first fault of the inputs, as the message shown to the user.
/// `input_path` is the path of the input file, without surrounding white
/// space, and `input_exists` says whether a file exists there.
pub fn input_fault(
    input_path: &str,
    input_exists: bool,
    output_file: &str,
    carrier_positive: bool,
) -> (r: Option<String>)
    ensures
        text_view(r) == input_problem(input_path@, input_exists, output_file@, carrier_positive),
{
    if input_path.is_empty() {
        Some("Input wave file path is empty.".to_owned())
    } else if !input_exists {
        let mut message = "Input wave file does not exist: ".to_owned();
        message.append(input_path);
        Some(message)
    } else if !output_file.is_empty() && !ends_with(output_file, ".png") {
        let mut message = "Output file should have .png extension: ".to_owned();
        message.append(output_file);
        Some(message)
    } else if !carrier_positive {
        Some("Carrier frequency must be greater than 0 Hz.".to_owned())
    } else {
        None
    }
}

/// The name of the plot file of check box `checkbox`, derived from `name`.
pub fn plot_file(name: String, checkbox: CurrentlyEditingConfig) -> (r: String)
    ensures
        r@ == plot_name(name@, checkbox),
{
    proof {
        reveal_strlit(".png");
    }
    match checkbox {
        CurrentlyEditingConfig::PlotDSB => replace(name.as_str(), ".png", "_dsb.png"),
        CurrentlyEditingConfig::PlotUSB => replace(name.as_str(), ".png", "_ssb_upper.png"),
        CurrentlyEditingConfig::PlotLSB => replace(name.as_str(), ".png", "_ssb_lower.png"),
        CurrentlyEditingConfig::PlotDemod => replace(name.as_str(), ".png", "_demod.png"),
        _ => name,
    }
}

/// Going forward and then backward, or backward and then forward, returns
/// the focus to the field it was on, as long as that field belongs to the
/// open screen.
pub proof fn lemma_focus_round_trip(screen: ConfigState, field: CurrentlyEditingConfig)
    requires
        belongs_to(screen, field),
    ensures
        prev_field(screen, next_field(screen, Some(field))) == Some(field),
        next_field(screen, prev_field(screen, Some(field))) == Some(field),
{
}

/// The focus never leaves the open screen: whatever it was, the field that
/// gets the focus next, in either direction, belongs to the screen.
pub proof fn lemma_focus_stays_on_screen(
    screen: ConfigState,
    current: Option<CurrentlyEditingConfig>,
)
    ensures
        next_field(screen, current) matches Some(f) ==> belongs_to(screen, f),
        prev_field(screen, current) matches Some(f) ==> belongs_to(screen, f),
{
}

} // verus!
