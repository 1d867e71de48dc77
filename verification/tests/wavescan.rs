use multidevice::wavescan::config::{
    get_checkbox_by_index, get_checkbox_index, input_fault, plot_file, ConfigState,
    CurrentlyEditingConfig, Editor,
};

fn editor() -> Editor {
    Editor::new(String::from("./resources/fubuki.wav"), String::from("./resources/fubuki-noise.png"))
}

#[test]
fn checkbox_positions() {
    assert_eq!(get_checkbox_index(&CurrentlyEditingConfig::PlotMSG), Some(0));
    assert_eq!(get_checkbox_index(&CurrentlyEditingConfig::PlotDSB), Some(1));
    assert_eq!(get_checkbox_index(&CurrentlyEditingConfig::PlotUSB), Some(2));
    assert_eq!(get_checkbox_index(&CurrentlyEditingConfig::PlotLSB), Some(3));
    assert_eq!(get_checkbox_index(&CurrentlyEditingConfig::PlotDemod), Some(4));
    assert_eq!(get_checkbox_index(&CurrentlyEditingConfig::InputFile), None);
    assert_eq!(get_checkbox_index(&CurrentlyEditingConfig::OutputFile), None);
    assert_eq!(get_checkbox_index(&CurrentlyEditingConfig::ModFreq), None);
    assert_eq!(get_checkbox_index(&CurrentlyEditingConfig::DemodFreqError), None);
    assert_eq!(get_checkbox_index(&CurrentlyEditingConfig::DemodPhaseError), None);
}

#[test]
fn checkbox_by_position() {
    assert_eq!(get_checkbox_by_index(0), Some(CurrentlyEditingConfig::PlotMSG));
    assert_eq!(get_checkbox_by_index(1), Some(CurrentlyEditingConfig::PlotDSB));
    assert_eq!(get_checkbox_by_index(2), Some(CurrentlyEditingConfig::PlotUSB));
    assert_eq!(get_checkbox_by_index(3), Some(CurrentlyEditingConfig::PlotLSB));
    assert_eq!(get_checkbox_by_index(4), Some(CurrentlyEditingConfig::PlotDemod));
    assert_eq!(get_checkbox_by_index(5), None);
    assert_eq!(get_checkbox_by_index(usize::MAX), None);
}

#[test]
fn checkbox_round_trip() {
    for i in 0..5 {
        let c = get_checkbox_by_index(i).unwrap();
        assert_eq!(get_checkbox_index(&c), Some(i));
    }
}

#[test]
fn editor_starts_on_files() {
    let e = editor();
    assert_eq!(e.state, ConfigState::Files);
    assert_eq!(e.current_editing_config, None);
    assert_eq!(e.checkboxes, vec![false, false, false, false, false]);
    assert_eq!(e.input_file, "./resources/fubuki.wav");
    assert_eq!(e.output_file, "./resources/fubuki-noise.png");
    assert!(!e.has_error);
    assert_eq!(e.error_buffer, "");
}

#[test]
fn focus_walks_forward_through_files() {
    let mut e = editor();
    e.next_editing_config(true, true);
    assert_eq!(e.current_editing_config, Some(CurrentlyEditingConfig::InputFile));
    e.next_editing_config(true, true);
    assert_eq!(e.current_editing_config, Some(CurrentlyEditingConfig::OutputFile));
    e.next_editing_config(true, true);
    assert_eq!(e.current_editing_config, None);
    e.next_editing_config(true, true);
    assert_eq!(e.current_editing_config, Some(CurrentlyEditingConfig::InputFile));
}

#[test]
fn focus_walks_backward_through_files() {
    let mut e = editor();
    e.prev_editing_config(true, true);
    assert_eq!(e.current_editing_config, Some(CurrentlyEditingConfig::OutputFile));
    e.prev_editing_config(true, true);
    assert_eq!(e.current_editing_config, Some(CurrentlyEditingConfig::InputFile));
    e.prev_editing_config(true, true);
    assert_eq!(e.current_editing_config, None);
}

#[test]
fn focus_on_mod_has_one_field() {
    let mut e = editor();
    e.change_state_to(ConfigState::Mod, true, true);
    e.next_editing_config(true, true);
    assert_eq!(e.current_editing_config, Some(CurrentlyEditingConfig::ModFreq));
    e.next_editing_config(true, true);
    assert_eq!(e.current_editing_config, None);
    e.prev_editing_config(true, true);
    assert_eq!(e.current_editing_config, Some(CurrentlyEditingConfig::ModFreq));
    e.prev_editing_config(true, true);
    assert_eq!(e.current_editing_config, None);
}

#[test]
fn focus_walks_through_demod() {
    let mut e = editor();
    e.change_state_to(ConfigState::Demod, true, true);
    e.next_editing_config(true, true);
    assert_eq!(e.current_editing_config, Some(CurrentlyEditingConfig::DemodFreqError));
    e.next_editing_config(true, true);
    assert_eq!(e.current_editing_config, Some(CurrentlyEditingConfig::DemodPhaseError));
    e.next_editing_config(true, true);
    assert_eq!(e.current_editing_config, None);
    e.prev_editing_config(true, true);
    assert_eq!(e.current_editing_config, Some(CurrentlyEditingConfig::DemodPhaseError));
    e.prev_editing_config(true, true);
    assert_eq!(e.current_editing_config, Some(CurrentlyEditingConfig::DemodFreqError));
    e.prev_editing_config(true, true);
    assert_eq!(e.current_editing_config, None);
}

#[test]
fn focus_walks_through_plot() {
    let mut e = editor();
    e.change_state_to(ConfigState::Plot, true, true);
    let forward = [
        Some(CurrentlyEditingConfig::PlotMSG),
        Some(CurrentlyEditingConfig::PlotDSB),
        Some(CurrentlyEditingConfig::PlotUSB),
        Some(CurrentlyEditingConfig::PlotLSB),
        Some(CurrentlyEditingConfig::PlotDemod),
        None,
    ];
    for expected in forward {
        e.next_editing_config(true, true);
        assert_eq!(e.current_editing_config, expected);
    }
    let backward = [
        Some(CurrentlyEditingConfig::PlotDemod),
        Some(CurrentlyEditingConfig::PlotLSB),
        Some(CurrentlyEditingConfig::PlotUSB),
        Some(CurrentlyEditingConfig::PlotDSB),
        Some(CurrentlyEditingConfig::PlotMSG),
        None,
    ];
    for expected in backward {
        e.prev_editing_config(true, true);
        assert_eq!(e.current_editing_config, expected);
    }
}

#[test]
fn foreign_focus_is_dropped() {
    let mut e = editor();
    e.current_editing_config = Some(CurrentlyEditingConfig::PlotUSB);
    e.next_editing_config(true, true);
    assert_eq!(e.current_editing_config, None);
    e.current_editing_config = Some(CurrentlyEditingConfig::ModFreq);
    e.prev_editing_config(true, true);
    assert_eq!(e.current_editing_config, None);
}

#[test]
fn changing_screen_drops_focus() {
    let mut e = editor();
    e.next_editing_config(true, true);
    e.change_state_to(ConfigState::Plot, true, true);
    assert_eq!(e.state, ConfigState::Plot);
    assert_eq!(e.current_editing_config, None);
}

#[test]
fn toggle_ticks_exactly_one_box() {
    let mut e = editor();
    e.change_state_to(ConfigState::Plot, true, true);
    e.next_editing_config(true, true);
    e.next_editing_config(true, true);
    e.toggle_checkbox();
    assert_eq!(e.checkboxes, vec![false, true, false, false, false]);
    e.next_editing_config(true, true);
    e.next_editing_config(true, true);
    e.next_editing_config(true, true);
    e.toggle_checkbox();
    assert_eq!(e.checkboxes, vec![false, false, false, false, true]);
}

#[test]
fn toggle_without_checkbox_focus_changes_nothing() {
    let mut e = editor();
    e.toggle_checkbox();
    assert_eq!(e.checkboxes, vec![false, false, false, false, false]);
    e.next_editing_config(true, true);
    e.toggle_checkbox();
    assert_eq!(e.checkboxes, vec![false, false, false, false, false]);
}

#[test]
fn toggle_follows_the_number_of_boxes() {
    let mut e = editor();
    e.checkboxes = vec![true, true, true];
    e.current_editing_config = Some(CurrentlyEditingConfig::PlotUSB);
    e.toggle_checkbox();
    assert_eq!(e.checkboxes, vec![false, false, true]);
}

#[test]
fn input_path_is_trimmed() {
    let e = Editor::new(String::from("  in.wav \n"), String::new());
    assert_eq!(e.input_path(), "in.wav");
}

#[test]
fn valid_inputs_clear_the_error() {
    let mut e = editor();
    e.set_error(String::from("old"));
    assert!(e.has_error);
    assert_eq!(e.error_buffer, "old");
    e.validate_inputs(true, true);
    assert!(!e.has_error);
    assert_eq!(e.error_buffer, "");
    e.set_error(String::from("again"));
    e.clear_error();
    assert!(!e.has_error);
    assert_eq!(e.error_buffer, "");
}

#[test]
fn empty_input_is_reported_first() {
    let mut e = Editor::new(String::from("   "), String::from("out.txt"));
    e.validate_inputs(false, false);
    assert!(e.has_error);
    assert_eq!(e.error_buffer, "Input wave file path is empty.");
}

#[test]
fn missing_input_is_reported() {
    let mut e = Editor::new(String::from(" in.wav "), String::from("out.txt"));
    e.validate_inputs(false, false);
    assert!(e.has_error);
    assert_eq!(e.error_buffer, "Input wave file does not exist: in.wav");
}

#[test]
fn output_must_end_in_png() {
    let mut e = Editor::new(String::from("in.wav"), String::from("out.txt"));
    e.validate_inputs(true, false);
    assert!(e.has_error);
    assert_eq!(e.error_buffer, "Output file should have .png extension: out.txt");
    let mut e = Editor::new(String::from("in.wav"), String::from("png"));
    e.validate_inputs(true, true);
    assert_eq!(e.error_buffer, "Output file should have .png extension: png");
    let mut e = Editor::new(String::from("in.wav"), String::from(".png"));
    e.validate_inputs(true, true);
    assert!(!e.has_error);
}

#[test]
fn empty_output_is_accepted() {
    let mut e = Editor::new(String::from("in.wav"), String::new());
    e.validate_inputs(true, true);
    assert!(!e.has_error);
    assert_eq!(e.error_buffer, "");
}

#[test]
fn carrier_must_be_positive() {
    let mut e = Editor::new(String::from("in.wav"), String::from("out.png"));
    e.validate_inputs(true, false);
    assert!(e.has_error);
    assert_eq!(e.error_buffer, "Carrier frequency must be greater than 0 Hz.");
    assert_eq!(e.input_file, "in.wav");
    assert_eq!(e.output_file, "out.png");
}

#[test]
fn no_plot_without_a_ticked_box() {
    let e = editor();
    assert_eq!(e.image_loader(), None);
}

#[test]
fn plot_names() {
    let mut e = Editor::new(String::from("in.wav"), String::from("out.png"));
    let expected = [
        "out.png",
        "out_dsb.png",
        "out_ssb_upper.png",
        "out_ssb_lower.png",
        "out_demod.png",
    ];
    for (i, name) in expected.iter().enumerate() {
        e.checkboxes = vec![false; 5];
        e.checkboxes[i] = true;
        assert_eq!(e.image_loader(), Some(String::from(*name)));
    }
    assert_eq!(e.output_file, "out.png");
}

#[test]
fn ticked_boxes_rename_in_turn() {
    let mut e = Editor::new(String::from("in.wav"), String::from("a.png.png"));
    e.checkboxes = vec![true, true, false, false, true, true, true];
    assert_eq!(e.image_loader(), Some(String::from("a_dsb_demod.png_dsb_demod.png")));
    e.checkboxes = vec![false, false, false, false, false, true];
    assert_eq!(e.image_loader(), None);
}

#[test]
fn name_without_extension_is_kept() {
    let mut e = Editor::new(String::from("in.wav"), String::from("plot"));
    e.checkboxes = vec![false, false, true, false, false];
    assert_eq!(e.image_loader(), Some(String::from("plot")));
}

#[test]
fn plot_file_of_each_box() {
    let name = String::from("x.png");
    assert_eq!(plot_file(name.clone(), CurrentlyEditingConfig::PlotMSG), "x.png");
    assert_eq!(plot_file(name.clone(), CurrentlyEditingConfig::PlotDSB), "x_dsb.png");
    assert_eq!(plot_file(name.clone(), CurrentlyEditingConfig::PlotUSB), "x_ssb_upper.png");
    assert_eq!(plot_file(name.clone(), CurrentlyEditingConfig::PlotLSB), "x_ssb_lower.png");
    assert_eq!(plot_file(name.clone(), CurrentlyEditingConfig::PlotDemod), "x_demod.png");
    assert_eq!(plot_file(name.clone(), CurrentlyEditingConfig::ModFreq), "x.png");
}

#[test]
fn faults_in_order() {
    assert_eq!(
        input_fault("", true, "out.png", true),
        Some(String::from("Input wave file path is empty."))
    );
    assert_eq!(
        input_fault("a b.wav", false, "out.png", true),
        Some(String::from("Input wave file does not exist: a b.wav"))
    );
    assert_eq!(
        input_fault("in.wav", true, "out.PNG", true),
        Some(String::from("Output file should have .png extension: out.PNG"))
    );
    assert_eq!(
        input_fault("in.wav", true, "out.png", false),
        Some(String::from("Carrier frequency must be greater than 0 Hz."))
    );
    assert_eq!(input_fault("in.wav", true, "out.png", true), None);
    assert_eq!(input_fault("in.wav", true, "", true), None);
    assert_eq!(input_fault(" ", true, "", true), None);
}

#[test]
fn moving_the_focus_checks_the_inputs() {
    let mut e = Editor::new(String::from("in.wav"), String::from("out.txt"));
    assert!(!e.has_error);
    e.next_editing_config(false, true);
    assert_eq!(e.current_editing_config, Some(CurrentlyEditingConfig::InputFile));
    assert!(e.has_error);
    assert_eq!(e.error_buffer, "Input wave file does not exist: in.wav");
    e.prev_editing_config(true, true);
    assert_eq!(e.current_editing_config, None);
    assert_eq!(e.error_buffer, "Output file should have .png extension: out.txt");
    e.output_file = String::from("out.png");
    e.change_state_to(ConfigState::Mod, true, false);
    assert_eq!(e.state, ConfigState::Mod);
    assert_eq!(e.error_buffer, "Carrier frequency must be greater than 0 Hz.");
    e.next_editing_config(true, true);
    assert_eq!(e.current_editing_config, Some(CurrentlyEditingConfig::ModFreq));
    assert!(!e.has_error);
    assert_eq!(e.error_buffer, "");
}
