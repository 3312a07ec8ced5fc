//! Human-readable names of MIDI notes, such as `C4` or `F#3`.

use vstd::prelude::*;

verus! {

/// Name of pitch class `pc` (0-11, counted from C).
pub open spec fn spec_pitch_class_name(pc: int) -> Seq<char> {
    if pc == 0 {
        "C"@
    } else if pc == 1 {
        "C#"@
    } else if pc == 2 {
        "D"@
    } else if pc == 3 {
        "D#"@
    } else if pc == 4 {
        "E"@
    } else if pc == 5 {
        "F"@
    } else if pc == 6 {
        "F#"@
    } else if pc == 7 {
        "G"@
    } else if pc == 8 {
        "G#"@
    } else if pc == 9 {
        "A"@
    } else if pc == 10 {
        "A#"@
    } else {
        "B"@
    }
}

/// Decimal text of an octave number from -1 to 20.
pub open spec fn spec_octave_text(octave: int) -> Seq<char> {
    if octave == -1 {
        "-1"@
    } else if octave == 0 {
        "0"@
    } else if octave == 1 {
        "1"@
    } else if octave == 2 {
        "2"@
    } else if octave == 3 {
        "3"@
    } else if octave == 4 {
        "4"@
    } else if octave == 5 {
        "5"@
    } else if octave == 6 {
        "6"@
    } else if octave == 7 {
        "7"@
    } else if octave == 8 {
        "8"@
    } else if octave == 9 {
        "9"@
    } else if octave == 10 {
        "10"@
    } else if octave == 11 {
        "11"@
    } else if octave == 12 {
        "12"@
    } else if octave == 13 {
        "13"@
    } else if octave == 14 {
        "14"@
    } else if octave == 15 {
        "15"@
    } else if octave == 16 {
        "16"@
    } else if octave == 17 {
        "17"@
    } else if octave == 18 {
        "18"@
    } else if octave == 19 {
        "19"@
    } else {
        "20"@
    }
}

/// The octave a MIDI note lies in; middle C (60) starts octave 4.
pub open spec fn spec_note_octave(midi_note: u8) -> int {
    midi_note / 12 - 1
}

/// Name of a MIDI note: its pitch class followed by its octave.
pub open spec fn spec_note_name(midi_note: u8) -> Seq<char> {
    spec_pitch_class_name((midi_note % 12) as int) + spec_octave_text(spec_note_octave(midi_note))
}

fn pitch_class_name(pc: u8) -> (r: &'static str)
    requires
        pc < 12,
    ensures
        r@ == spec_pitch_class_name(pc as int),
{
    match pc {
        0 => "C",
        1 => "C#",
        2 => "D",
        3 => "D#",
        4 => "E",
        5 => "F",
        6 => "F#",
        7 => "G",
        8 => "G#",
        9 => "A",
        10 => "A#",
        _ => "B",
    }
}

fn octave_text(octave_plus_one: u8) -> (r: &'static str)
    requires
        octave_plus_one <= 21,
    ensures
        r@ == spec_octave_text(octave_plus_one - 1),
{
    match octave_plus_one {
        0 => "-1",
        1 => "0",
        2 => "1",
        3 => "2",
        4 => "3",
        5 => "4",
        6 => "5",
        7 => "6",
        8 => "7",
        9 => "8",
        10 => "9",
        11 => "10",
        12 => "11",
        13 => "12",
        14 => "13",
        15 => "14",
        16 => "15",
        17 => "16",
        18 => "17",
        19 => "18",
        20 => "19",
        _ => "20",
    }
}

/// Convert a MIDI note number to a human-readable name like "C4", "F#3", etc.
pub fn midi_note_name(midi_note: u8) -> (name: String)
    ensures
        name@ == spec_note_name(midi_note),
{
    let mut name = String::from_str(pitch_class_name(midi_note % 12));
    name.append(octave_text(midi_note / 12));
    name
}

} // verus!
