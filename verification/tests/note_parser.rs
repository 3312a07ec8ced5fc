use rustsynth::note_parser::{parse_command, parse_packet, NoteCommand};

fn velocity(cmd: &NoteCommand) -> f32 {
    cmd.velocity_num as f32 / cmd.velocity_den as f32
}

#[test]
fn test_parse_c4() {
    let cmd = parse_command("04C", 48000).unwrap();
    assert_eq!(cmd.channel, 0);
    assert_eq!(cmd.midi_note, 60); // C4 = MIDI 60
    assert!((velocity(&cmd) - 0.5).abs() < 0.01);
}

#[test]
fn test_parse_with_velocity() {
    let cmd = parse_command("04Cf", 48000).unwrap();
    assert_eq!(cmd.channel, 0);
    assert_eq!(cmd.midi_note, 60);
    // f = 15 in hex, but we're base-36, so f = 15/35 ≈ 0.43
    assert!((velocity(&cmd) - 15.0 / 35.0).abs() < 0.01);
}

#[test]
fn test_parse_channel_f() {
    let cmd = parse_command("f4G", 48000).unwrap();
    assert_eq!(cmd.channel, 15);
    assert_eq!(cmd.midi_note, 67); // G4
}

#[test]
fn test_parse_invalid_too_short() {
    assert!(parse_command("04", 48000).is_none());
}

#[test]
fn default_length_is_one_sixteenth_of_a_bar() {
    let cmd = parse_command("04C", 48000).unwrap();
    assert_eq!(cmd.length_units, 0);
    // one sixteenth of a two-second bar = 0.125 s
    assert_eq!(cmd.length_samples, 6000);
    let cmd = parse_command("04C8", 48000).unwrap();
    assert_eq!(cmd.length_samples, 6000);
    // a length character that is not a base-36 digit falls back to 4
    let cmd = parse_command("04C8#", 48000).unwrap();
    assert_eq!(cmd.length_units, 4);
    assert_eq!(cmd.length_samples, 30000);
}

#[test]
fn length_digit_sets_length() {
    let cmd = parse_command("04C80", 48000).unwrap();
    assert_eq!(cmd.length_units, 0);
    assert_eq!(cmd.length_samples, 6000);
    let cmd = parse_command("04C8z", 44100).unwrap();
    assert_eq!(cmd.length_units, 35);
    assert_eq!(cmd.length_samples, 36 * 44100 / 8);
}

#[test]
fn velocity_digits_are_thirty_fifths() {
    let cmd = parse_command("04Cz", 48000).unwrap();
    assert_eq!((cmd.velocity_num, cmd.velocity_den), (35, 35));
    let cmd = parse_command("04C0", 48000).unwrap();
    assert_eq!((cmd.velocity_num, cmd.velocity_den), (0, 35));
    // a character that is not a base-36 digit falls back to 8
    let cmd = parse_command("04C#", 48000).unwrap();
    assert_eq!((cmd.velocity_num, cmd.velocity_den), (8, 35));
}

#[test]
fn note_offset_shifts_chromatically() {
    // C4 shifted one semitone is C#4
    let cmd = parse_command("04C881", 48000).unwrap();
    assert_eq!(cmd.midi_note, 61);
    // an offset that is not a base-36 digit rejects the command
    assert!(parse_command("04C88#", 48000).is_none());
}

#[test]
fn commands_are_case_insensitive() {
    let lower = parse_command("a4c8f3", 48000);
    let upper = parse_command("A4C8F3", 48000);
    assert!(lower.is_some());
    assert_eq!(lower, upper);
    assert_eq!(lower.unwrap().channel, 10);
}

#[test]
fn extended_note_letters_and_digits() {
    // h is the note above B
    assert_eq!(parse_command("04h", 48000).unwrap().midi_note, 72);
    // z is 30 semitones above C
    assert_eq!(parse_command("04z", 48000).unwrap().midi_note, 90);
    // digits lie below C: 0 is ten semitones down, 9 one down
    assert_eq!(parse_command("040", 48000).unwrap().midi_note, 50);
    assert_eq!(parse_command("049", 48000).unwrap().midi_note, 59);
}

#[test]
fn notes_outside_the_midi_range_are_rejected() {
    // C9 + 30 semitones is past 127
    assert!(parse_command("09z", 48000).is_none());
    // octave 0 note 0 is 12 - 10 = 2, fine; with no lower octave available
    assert_eq!(parse_command("000", 48000).unwrap().midi_note, 2);
    assert_eq!(parse_command("09g", 48000).unwrap().midi_note, 127);
    assert!(parse_command("09gzzz", 48000).is_none());
}

#[test]
fn invalid_channel_octave_or_note_is_rejected() {
    // channel g = 16 is past F
    assert!(parse_command("g4C", 48000).is_none());
    // octave must be a decimal digit
    assert!(parse_command("0aC", 48000).is_none());
    // note must be a letter or digit
    assert!(parse_command("04#", 48000).is_none());
    assert!(parse_command("#4C", 48000).is_none());
}

#[test]
fn surrounding_whitespace_is_ignored() {
    let plain = parse_command("04C", 48000);
    assert_eq!(parse_command("  04C\t\n", 48000), plain);
    // non-ASCII white space (an em space) is trimmed too
    assert_eq!(parse_command("\u{2003}04C\u{3000}", 48000), plain);
    // white space inside the command is not
    assert!(parse_command("0 4C", 48000).is_none());
    assert!(parse_command("   ", 48000).is_none());
}

#[test]
fn packet_splits_on_semicolons_and_skips_blanks() {
    let entries = parse_packet("04C;14E; ;24G;zz", 48000);
    assert_eq!(entries.len(), 4);
    let texts: Vec<String> = entries.iter().map(|e| e.text.iter().collect()).collect();
    assert_eq!(texts, vec!["04C", "14E", "24G", "zz"]);
    assert_eq!(entries[0].command.unwrap().midi_note, 60);
    assert_eq!(entries[1].command.unwrap().channel, 1);
    assert_eq!(entries[1].command.unwrap().midi_note, 64);
    assert_eq!(entries[2].command.unwrap().midi_note, 67);
    assert!(entries[3].command.is_none());
}

#[test]
fn empty_packet_has_no_commands() {
    assert!(parse_packet("", 48000).is_empty());
    assert!(parse_packet(";;", 48000).is_empty());
}

#[test]
fn packet_entry_text_is_trimmed() {
    let entries = parse_packet(" 04C ;", 48000);
    assert_eq!(entries.len(), 1);
    let text: String = entries[0].text.iter().collect();
    assert_eq!(text, "04C");
}

#[test]
fn surrounding_whitespace_is_what_std_calls_whitespace() {
    for code in 0u32..0x3100 {
        if let Some(c) = char::from_u32(code).filter(|c| !c.is_ascii_alphanumeric()) {
            let text = format!("{c}04C");
            assert_eq!(parse_command(&text, 48000).is_some(), c.is_whitespace(), "code point {code:#x}");
        }
    }
}
