use rustsynth::effect_kinds::{DistortionType, FilterMode};
use rustsynth::messages::{EffectType, OscillatorType};
use rustsynth::note_names::midi_note_name;
use rustsynth::note_parser::parse_command;
use rustsynth::status::{udp_status_text, UdpStatus};
use rustsynth::ui_mode::UIMode;

#[test]
fn oscillator_names() {
    assert_eq!(OscillatorType::Sine.name(), "Sine");
    assert_eq!(OscillatorType::Sawtooth4.name(), "Sawtooth4");
    assert_eq!(OscillatorType::Triangle2.name(), "Triangle2");
}

#[test]
fn all_oscillators_listed_once_in_order() {
    let all = OscillatorType::all();
    assert_eq!(all.len(), 16);
    assert_eq!(all[0], OscillatorType::Sine);
    assert_eq!(all[4], OscillatorType::Sine2);
    assert_eq!(all[15], OscillatorType::Sawtooth4);
    for (i, a) in all.iter().enumerate() {
        for b in &all[i + 1..] {
            assert_ne!(a, b);
            assert_ne!(a.name(), b.name());
        }
    }
}

#[test]
fn effect_names() {
    assert_eq!(EffectType::Gain.name(), "Gain");
    assert_eq!(EffectType::Eq3.name(), "EQ3");
    assert_eq!(EffectType::WhiteNoise.name(), "WhiteNoise");
}

#[test]
fn tab_labels() {
    assert_eq!(UIMode::Voices.tab_label(), "1:VOICES");
    assert_eq!(UIMode::FxGroups.tab_label(), "2:FX GROUPS");
    assert_eq!(UIMode::Sequencer.tab_label(), "3:SEQUENCER");
}

#[test]
fn note_names() {
    assert_eq!(midi_note_name(60), "C4");
    assert_eq!(midi_note_name(61), "C#4");
    assert_eq!(midi_note_name(69), "A4");
    assert_eq!(midi_note_name(0), "C-1");
    assert_eq!(midi_note_name(127), "G9");
    assert_eq!(midi_note_name(255), "D#20");
}

#[test]
fn note_names_parse_back() {
    for n in 12u8..=127 {
        let name = midi_note_name(n);
        let chars: Vec<char> = name.chars().collect();
        let sharp = chars[1] == '#';
        let octave = (n / 12 - 1) as u32;
        let digit = char::from_digit(octave, 10).unwrap();
        let cmd = format!("0{}{}88{}", digit, chars[0], if sharp { "1" } else { "0" });
        assert_eq!(parse_command(&cmd, 48000).unwrap().midi_note, n, "{}", name);
    }
}

#[test]
fn distortion_type_index_round_trip() {
    for t in [DistortionType::HardClip, DistortionType::SoftClip, DistortionType::Foldback, DistortionType::Waveshape] {
        assert_eq!(DistortionType::from_index(t.index()), t);
    }
    assert_eq!(DistortionType::Foldback.index(), 2);
    assert_eq!(DistortionType::from_index(9), DistortionType::SoftClip);
}

#[test]
fn filter_names() {
    assert_eq!(FilterMode::Lowpass.name(), "Lowpass");
    assert_eq!(FilterMode::Highpass.name(), "Highpass");
    assert_eq!(FilterMode::Bandpass.name(), "Bandpass");
}

#[test]
fn udp_status_texts() {
    assert_eq!(udp_status_text(&UdpStatus::Starting), "UDP: starting…");
    assert_eq!(udp_status_text(&UdpStatus::Bound { addr: "0.0.0.0:49161".to_string() }), "UDP: 0.0.0.0:49161");
    assert_eq!(udp_status_text(&UdpStatus::Failed { reason: "in use".to_string() }), "UDP ERR: in use");
}
