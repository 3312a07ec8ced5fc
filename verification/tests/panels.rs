use rustsynth::fx_panel::{FxAction, FxGroupPanel};
use rustsynth::keys::{KeyCode, KeyPress};
use rustsynth::messages::{EffectType, OscillatorType};
use rustsynth::routing_panel::{RoutingAction, RoutingPanel};
use rustsynth::sequencer_panel::{step_cell_look, SeqAction, SequencerPanel, StepCellLook};
use rustsynth::ui_mode::{app_key_action, AppAction, UIMode};
use rustsynth::voice_panel::{cycle_osc, VoiceAction, VoicePanel, VoiceSettings};

fn key(code: KeyCode) -> KeyPress {
    KeyPress { code, shift: false, ctrl: false }
}

fn shift(code: KeyCode) -> KeyPress {
    KeyPress { code, shift: true, ctrl: false }
}

fn settings() -> VoiceSettings {
    VoiceSettings {
        osc_type: OscillatorType::Sine,
        default_midi_note: 60,
        sub_osc_enabled: false,
        sub_osc_octave: -1,
    }
}

#[test]
fn app_keys() {
    assert_eq!(app_key_action(UIMode::Voices, false, key(KeyCode::Char('q'))), AppAction::Quit);
    assert_eq!(
        app_key_action(UIMode::Voices, false, KeyPress { code: KeyCode::Char('s'), shift: false, ctrl: true }),
        AppAction::SavePreset
    );
    assert_eq!(
        app_key_action(UIMode::Sequencer, false, KeyPress { code: KeyCode::Char('l'), shift: false, ctrl: true }),
        AppAction::LoadPreset
    );
    assert_eq!(app_key_action(UIMode::Voices, false, key(KeyCode::Char('2'))), AppAction::SwitchMode(UIMode::FxGroups));
    assert_eq!(app_key_action(UIMode::Voices, false, key(KeyCode::Char('3'))), AppAction::SwitchMode(UIMode::Sequencer));
    assert_eq!(app_key_action(UIMode::FxGroups, true, key(KeyCode::Char('q'))), AppAction::PickerKey);
    // the picker only intercepts on the effect page
    assert_eq!(app_key_action(UIMode::Voices, true, key(KeyCode::Char('1'))), AppAction::SwitchMode(UIMode::Voices));
    assert_eq!(app_key_action(UIMode::Voices, false, key(KeyCode::Char('s'))), AppAction::PageKey);
}

#[test]
fn voice_grid_navigation() {
    let mut p: VoicePanel<u8> = VoicePanel::new();
    p.handle_key(key(KeyCode::Right), settings(), 0);
    assert_eq!(p.selected_voice, 1);
    for _ in 0..3 {
        p.handle_key(key(KeyCode::Right), settings(), 0);
    }
    // column 4 is the first column of the right half
    assert_eq!(p.selected_voice, 8);
    p.handle_key(key(KeyCode::Down), settings(), 0);
    assert_eq!(p.selected_voice, 12);
    p.handle_key(key(KeyCode::Down), settings(), 0);
    assert_eq!(p.selected_voice, 12);
    for _ in 0..10 {
        p.handle_key(key(KeyCode::Right), settings(), 0);
    }
    assert_eq!(p.selected_voice, 15);
    p.handle_key(key(KeyCode::Tab), settings(), 0);
    assert_eq!(p.selected_voice, 0);
    p.handle_key(key(KeyCode::BackTab), settings(), 0);
    assert_eq!(p.selected_voice, 15);
}

#[test]
fn voice_space_triggers_and_copy_paste() {
    let mut p: VoicePanel<u8> = VoicePanel::new();
    assert_eq!(p.handle_key(key(KeyCode::Char(' ')), settings(), 0), VoiceAction::Trigger { voice: 0 });
    assert_eq!(p.handle_key(key(KeyCode::Char('p')), settings(), 0), VoiceAction::Nothing);
    assert_eq!(p.handle_key(key(KeyCode::Char('c')), settings(), 7), VoiceAction::Nothing);
    assert_eq!(p.clipboard, Some(7));
    // paste onto another voice: the clipboard still holds voice 0's settings
    p.handle_key(key(KeyCode::Right), settings(), 9);
    assert_eq!(p.handle_key(key(KeyCode::Char('p')), settings(), 9), VoiceAction::Paste { voice: 1 });
    assert_eq!(p.clipboard, Some(7));
    p.handle_key(key(KeyCode::Left), settings(), 0);
    assert_eq!(
        p.handle_key(key(KeyCode::Char('o')), settings(), 0),
        VoiceAction::SetOscillator { voice: 0, osc_type: OscillatorType::Triangle }
    );
}

#[test]
fn voice_param_editing() {
    let mut p: VoicePanel<u8> = VoicePanel::new();
    p.handle_key(key(KeyCode::Enter), settings(), 0);
    assert!(p.editing);
    // wave: Left cycles backwards, wrapping
    assert_eq!(
        p.handle_key(key(KeyCode::Left), settings(), 0),
        VoiceAction::SetOscillator { voice: 0, osc_type: OscillatorType::Sawtooth4 }
    );
    p.handle_key(key(KeyCode::Down), settings(), 0);
    // note: an octave per step, a semitone with Shift
    assert_eq!(p.handle_key(key(KeyCode::Right), settings(), 0), VoiceAction::SetDefaultNote { voice: 0, midi_note: 72 });
    assert_eq!(p.handle_key(shift(KeyCode::Left), settings(), 0), VoiceAction::SetDefaultNote { voice: 0, midi_note: 59 });
    let high = VoiceSettings { default_midi_note: 120, ..settings() };
    assert_eq!(p.handle_key(key(KeyCode::Right), high, 0), VoiceAction::SetDefaultNote { voice: 0, midi_note: 127 });
    // sub-oscillator switch and octave
    p.handle_key(key(KeyCode::Down), settings(), 0);
    p.handle_key(key(KeyCode::Down), settings(), 0);
    assert_eq!(
        p.handle_key(key(KeyCode::Right), settings(), 0),
        VoiceAction::SetSubOsc { voice: 0, enabled: true, octave: -1 }
    );
    p.handle_key(key(KeyCode::Down), settings(), 0);
    let low = VoiceSettings { sub_osc_octave: -2, ..settings() };
    assert_eq!(p.handle_key(key(KeyCode::Left), low, 0), VoiceAction::SetSubOsc { voice: 0, enabled: false, octave: -2 });
    // sends are the last four params; Down stops at the last
    for _ in 0..20 {
        p.handle_key(key(KeyCode::Down), settings(), 0);
    }
    assert_eq!(p.selected_param, 13);
    assert_eq!(
        p.handle_key(shift(KeyCode::Right), settings(), 0),
        VoiceAction::AdjustSend { voice: 0, group: 3, dir: 1, fine: true }
    );
    p.handle_key(key(KeyCode::Esc), settings(), 0);
    assert!(!p.editing);
}

#[test]
fn oscillator_cycle_wraps_both_ways() {
    assert_eq!(cycle_osc(OscillatorType::Sawtooth4, 1), OscillatorType::Sine);
    assert_eq!(cycle_osc(OscillatorType::Sine, -1), OscillatorType::Sawtooth4);
    let mut t = OscillatorType::Square2;
    for _ in 0..16 {
        t = cycle_osc(t, 1);
    }
    assert_eq!(t, OscillatorType::Square2);
}

#[test]
fn fx_panel_new_and_picker() {
    let mut p = FxGroupPanel::new();
    assert_eq!(p.selected_group, 0);
    assert_eq!(p.picker_selected_effect(), EffectType::Gain);
    p.picker_selection = 13;
    assert_eq!(p.picker_selected_effect(), EffectType::Eq3);
    p.picker_selection = 40;
    assert_eq!(p.picker_selected_effect(), EffectType::WhiteNoise);
}

#[test]
fn fx_navigation_walks_through_groups() {
    let counts = [2, 0, 1, 0];
    let mut p = FxGroupPanel::new();
    p.handle_fx_key(key(KeyCode::Down), counts, 0);
    assert_eq!((p.selected_group, p.selected_effect), (0, 1));
    p.handle_fx_key(key(KeyCode::Down), counts, 0);
    assert_eq!((p.selected_group, p.selected_effect), (1, 0));
    p.handle_fx_key(key(KeyCode::Down), counts, 0);
    assert_eq!((p.selected_group, p.selected_effect), (2, 0));
    p.handle_fx_key(key(KeyCode::Up), counts, 0);
    assert_eq!((p.selected_group, p.selected_effect), (1, 0));
    p.handle_fx_key(key(KeyCode::Up), counts, 0);
    assert_eq!((p.selected_group, p.selected_effect), (0, 1));
}

#[test]
fn fx_editing_and_actions() {
    let counts = [2, 0, 0, 0];
    let mut p = FxGroupPanel::new();
    // no parameters: Enter does not start editing
    p.handle_fx_key(key(KeyCode::Enter), counts, 0);
    assert!(!p.editing);
    p.handle_fx_key(key(KeyCode::Enter), counts, 3);
    assert!(p.editing);
    p.handle_fx_key(key(KeyCode::Down), counts, 3);
    p.handle_fx_key(key(KeyCode::Down), counts, 3);
    p.handle_fx_key(key(KeyCode::Down), counts, 3);
    assert_eq!(p.selected_param, 2);
    assert_eq!(
        p.handle_fx_key(shift(KeyCode::Left), counts, 3),
        FxAction::AdjustParam { group: 0, effect: 0, param: 2, dir: -1, fine: true }
    );
    p.handle_fx_key(key(KeyCode::Esc), counts, 3);
    assert_eq!(p.handle_fx_key(key(KeyCode::Char('e')), counts, 3), FxAction::ToggleGroup { group: 0 });
    p.handle_fx_key(key(KeyCode::Down), counts, 3);
    assert_eq!(p.handle_fx_key(key(KeyCode::Char('d')), counts, 3), FxAction::RemoveEffect { group: 0, position: 1 });
    assert_eq!(p.selected_effect, 0);
    p.handle_fx_key(key(KeyCode::Down), [0, 0, 0, 0], 0);
    assert_eq!(p.handle_fx_key(key(KeyCode::Char('d')), [0, 0, 0, 0], 0), FxAction::Nothing);
}

#[test]
fn fx_picker_adds_at_end_of_group() {
    let mut p = FxGroupPanel::new();
    p.handle_fx_key(key(KeyCode::Char('a')), [3, 0, 0, 0], 0);
    assert!(p.show_picker);
    p.handle_picker_key(key(KeyCode::Down), 3);
    p.handle_picker_key(key(KeyCode::Down), 3);
    p.handle_picker_key(key(KeyCode::Up), 3);
    assert_eq!(
        p.handle_picker_key(key(KeyCode::Enter), 3),
        FxAction::AddEffect { group: 0, effect_type: EffectType::Bitcrusher, position: 3 }
    );
    assert!(!p.show_picker);
    assert_eq!(p.selected_effect, 3);
    p.handle_fx_key(key(KeyCode::Char('a')), [4, 0, 0, 0], 0);
    for _ in 0..30 {
        p.handle_picker_key(key(KeyCode::Down), 4);
    }
    assert_eq!(p.picker_selection, 15);
    p.handle_picker_key(key(KeyCode::Char('q')), 4);
    assert!(!p.show_picker);
}

#[test]
fn sequencer_panel_new_and_help() {
    let p: SequencerPanel<u8> = SequencerPanel::new();
    assert_eq!((p.selected_voice, p.selected_step, p.global_param), (0, 0, 0));
    assert!(p.help_text().starts_with("↑↓←→:Navigate"));
    let mut p = p;
    p.editing_global = true;
    assert_eq!(p.help_text(), "↑↓:Param  ←→:Adjust  Tab/Esc:Back to grid");
}

#[test]
fn sequencer_grid_keys() {
    let mut p: SequencerPanel<u8> = SequencerPanel::new();
    for _ in 0..20 {
        p.handle_key(key(KeyCode::Right), 8, 60, false, [0; 16]);
    }
    assert_eq!(p.selected_step, 7);
    p.handle_key(key(KeyCode::Down), 8, 60, false, [0; 16]);
    assert_eq!(
        p.handle_key(key(KeyCode::Char(' ')), 8, 60, false, [0; 16]),
        SeqAction::SetStepEnabled { voice: 1, step: 7, enabled: true }
    );
    assert_eq!(
        p.handle_key(key(KeyCode::Char(' ')), 8, 60, true, [0; 16]),
        SeqAction::SetStepEnabled { voice: 1, step: 7, enabled: false }
    );
    assert_eq!(
        p.handle_key(key(KeyCode::Char('+')), 8, 60, false, [0; 16]),
        SeqAction::SetStepNote { voice: 1, step: 7, midi_note: 61 }
    );
    assert_eq!(
        p.handle_key(shift(KeyCode::Char('-')), 8, 5, false, [0; 16]),
        SeqAction::SetStepNote { voice: 1, step: 7, midi_note: 0 }
    );
    assert_eq!(
        p.handle_key(shift(KeyCode::Char('=')), 8, 120, false, [0; 16]),
        SeqAction::SetStepNote { voice: 1, step: 7, midi_note: 127 }
    );
    assert_eq!(p.handle_key(key(KeyCode::Char('v')), 8, 60, false, [0; 16]), SeqAction::Nothing);
    let row: [u8; 16] = core::array::from_fn(|i| i as u8);
    assert_eq!(p.handle_key(key(KeyCode::Char('c')), 8, 60, false, row), SeqAction::Nothing);
    assert_eq!(p.clipboard, Some(row));
    // paste onto another voice: the clipboard still holds voice 1's row
    p.handle_key(key(KeyCode::Down), 8, 60, false, [9; 16]);
    assert_eq!(p.handle_key(key(KeyCode::Char('v')), 8, 60, false, [9; 16]), SeqAction::PasteRow { voice: 2 });
    assert_eq!(p.clipboard, Some(row));
    p.handle_key(key(KeyCode::Up), 8, 60, false, [0; 16]);
    assert_eq!(p.handle_key(key(KeyCode::Char('z')), 8, 60, false, [0; 16]), SeqAction::ClearRow { voice: 1 });
    assert_eq!(p.handle_key(key(KeyCode::Char('Z')), 8, 60, false, [0; 16]), SeqAction::ClearAll);
    assert_eq!(p.handle_key(key(KeyCode::Char('p')), 8, 60, false, [0; 16]), SeqAction::TogglePlay);
    assert_eq!(p.handle_key(key(KeyCode::Char('r')), 8, 60, false, [0; 16]), SeqAction::Stop);
}

#[test]
fn sequencer_global_params() {
    let mut p: SequencerPanel<u8> = SequencerPanel::new();
    p.handle_key(key(KeyCode::Tab), 16, 60, false, [0; 16]);
    assert!(p.editing_global);
    assert_eq!(p.handle_key(key(KeyCode::Right), 16, 60, false, [0; 16]), SeqAction::AdjustBpm { dir: 1, fine: false });
    p.handle_key(key(KeyCode::Down), 16, 60, false, [0; 16]);
    assert_eq!(p.handle_key(key(KeyCode::Right), 16, 60, false, [0; 16]), SeqAction::SetStepCount { count: 16 });
    assert_eq!(p.handle_key(key(KeyCode::Left), 16, 60, false, [0; 16]), SeqAction::SetStepCount { count: 15 });
    assert_eq!(p.handle_key(key(KeyCode::Left), 1, 60, false, [0; 16]), SeqAction::SetStepCount { count: 1 });
    p.handle_key(key(KeyCode::Down), 16, 60, false, [0; 16]);
    p.handle_key(key(KeyCode::Down), 16, 60, false, [0; 16]);
    assert_eq!(p.global_param, 2);
    assert_eq!(p.handle_key(shift(KeyCode::Left), 16, 60, false, [0; 16]), SeqAction::AdjustSwing { dir: -1, fine: true });
    p.handle_key(key(KeyCode::Esc), 16, 60, false, [0; 16]);
    assert!(!p.editing_global);
}

#[test]
fn routing_keys() {
    let mut p: RoutingPanel<[u8; 4]> = RoutingPanel::new();
    p.handle_key(key(KeyCode::Char('[')), [0; 4]);
    assert_eq!(p.selected_group, 3);
    p.handle_key(key(KeyCode::Char(']')), [0; 4]);
    assert_eq!(p.selected_group, 0);
    p.handle_key(key(KeyCode::Tab), [0; 4]);
    p.handle_key(key(KeyCode::Down), [0; 4]);
    assert_eq!(p.handle_key(key(KeyCode::Enter), [0; 4]), RoutingAction::ToggleSend { voice: 1, group: 1 });
    assert_eq!(
        p.handle_key(shift(KeyCode::Left), [0; 4]),
        RoutingAction::AdjustSend { voice: 1, group: 1, dir: -1, fine: true }
    );
    assert_eq!(p.handle_key(key(KeyCode::Char('p')), [0; 4]), RoutingAction::Nothing);
    assert_eq!(p.handle_key(key(KeyCode::Char('c')), [1, 2, 3, 4]), RoutingAction::Nothing);
    assert_eq!(p.clipboard, Some([1, 2, 3, 4]));
    // paste onto another voice: the clipboard still holds voice 1's sends
    p.handle_key(key(KeyCode::Down), [0; 4]);
    assert_eq!(p.handle_key(key(KeyCode::Char('p')), [0; 4]), RoutingAction::PasteRow { voice: 2 });
    assert_eq!(p.clipboard, Some([1, 2, 3, 4]));
    p.handle_key(key(KeyCode::Up), [0; 4]);
    assert_eq!(p.handle_key(key(KeyCode::Char('z')), [0; 4]), RoutingAction::ZeroRow { voice: 1 });
    for _ in 0..20 {
        p.handle_key(key(KeyCode::Down), [0; 4]);
    }
    assert_eq!(p.selected_voice, 15);
}

#[test]
fn step_cell_looks() {
    assert_eq!(step_cell_look(true, true, true), StepCellLook::CursorOn);
    assert_eq!(step_cell_look(false, true, false), StepCellLook::CursorOff);
    assert_eq!(step_cell_look(true, false, true), StepCellLook::PlayheadOn);
    assert_eq!(step_cell_look(false, false, true), StepCellLook::PlayheadOff);
    assert_eq!(step_cell_look(true, false, false), StepCellLook::On);
    assert_eq!(step_cell_look(false, false, false), StepCellLook::Off);
}
