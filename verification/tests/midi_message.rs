use rustsynth::midi_message::{is_controller_port, midi_action, pad_note_command, programmer_mode_message, MidiAction};

#[test]
fn note_on_on_a_voice_pad_triggers_and_lights() {
    match midi_action(&[0x90, 15, 100]) {
        MidiAction::Trigger { voice, velocity, reply } => {
            assert_eq!(voice, 8);
            assert_eq!(velocity, 100);
            assert_eq!(reply, (0x90, 15, 100));
        }
        other => panic!("unexpected {:?}", other),
    }
    // the channel nibble does not matter
    assert!(matches!(midi_action(&[0x93, 11, 1]), MidiAction::Trigger { voice: 0, .. }));
}

#[test]
fn note_on_off_the_voice_pads_does_nothing() {
    assert!(matches!(midi_action(&[0x90, 81, 100]), MidiAction::Nothing));
}

#[test]
fn note_off_and_zero_velocity_turn_the_light_off() {
    match midi_action(&[0x80, 22, 64]) {
        MidiAction::LightOff { reply } => assert_eq!(reply, (0x80, 22, 0)),
        other => panic!("unexpected {:?}", other),
    }
    match midi_action(&[0x90, 22, 0]) {
        MidiAction::LightOff { reply } => assert_eq!(reply, (0x80, 22, 0)),
        other => panic!("unexpected {:?}", other),
    }
}

#[test]
fn short_and_other_messages_are_ignored() {
    assert!(matches!(midi_action(&[0x90, 11]), MidiAction::Nothing));
    assert!(matches!(midi_action(&[]), MidiAction::Nothing));
    assert!(matches!(midi_action(&[0xB0, 11, 5]), MidiAction::Nothing));
}

#[test]
fn programmer_mode_sysex() {
    assert_eq!(
        programmer_mode_message(),
        vec![0xF0, 0x00, 0x20, 0x29, 0x02, 0x0C, 0x0E, 0x01, 0xF7]
    );
}

#[test]
fn pad_note_is_half_a_second_of_the_default_note() {
    let c = pad_note_command(3, 64, 127, 48000);
    assert_eq!(c.channel, 3);
    assert_eq!(c.midi_note, 64);
    assert_eq!((c.velocity_num, c.velocity_den), (127, 127));
    assert_eq!(c.length_units, 35);
    assert_eq!(c.length_samples, 24000);
}

#[test]
fn controller_ports_by_name() {
    assert!(is_controller_port("Launchpad X"));
    assert!(is_controller_port("Launchpad X:Launchpad X LPX MIDI 20:0"));
    assert!(!is_controller_port("Launchpad Mini"));
    assert!(!is_controller_port("launchpad x"));
    assert!(!is_controller_port(""));
}
