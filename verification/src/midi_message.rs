//! Decisions on the raw MIDI messages of a Launchpad X controller.

use vstd::prelude::*;

use crate::midi_pad::{pad_to_voice, spec_pad_to_voice};
use crate::note_parser::{str_chars, NoteCommand};

verus! {

/// What to do with one MIDI message from the controller.
#[derive(Debug, Clone, Copy)]
pub enum MidiAction {
    Nothing,
    /// Play `voice`'s default note at `velocity` (0-127) and send `reply`,
    /// which lights the pad.
    Trigger { voice: usize, velocity: u8, reply: (u8, u8, u8) },
    /// Send `reply`, which turns the pad's light off.
    LightOff { reply: (u8, u8, u8) },
}

/// The Novation SysEx header for the Launchpad X (device ID 0x0C).
pub open spec fn spec_sysex_header() -> Seq<u8> {
    seq![0xF0u8, 0x00u8, 0x20u8, 0x29u8, 0x02u8, 0x0Cu8]
}

/// The message that puts the controller into Programmer mode, which hands
/// raw control over pad notes and lights to the synth.
pub open spec fn spec_programmer_mode_message() -> Seq<u8> {
    spec_sysex_header() + seq![0x0Eu8, 0x01u8, 0xF7u8]
}

pub fn programmer_mode_message() -> (msg: Vec<u8>)
    ensures
        msg@ == spec_programmer_mode_message(),
{
    let mut msg = vec![0xF0u8, 0x00u8, 0x20u8, 0x29u8, 0x02u8, 0x0Cu8];
    msg.push(0x0E);
    msg.push(0x01);
    msg.push(0xF7);
    assert(msg@ =~= spec_programmer_mode_message());
    msg
}

/// The action for a message: a Note On with a non-zero velocity on a pad
/// that maps to a voice plays it and lights the pad; any other Note On, or a
/// Note Off, turns the pad's light off; everything else, and messages
/// shorter than three bytes, are ignored.
pub open spec fn spec_midi_action(message: Seq<u8>) -> MidiAction {
    if message.len() < 3 {
        MidiAction::Nothing
    } else {
        let status = message[0] & 0xF0u8;
        let note = message[1];
        let velocity = message[2];
        if status == 0x90 && velocity > 0 {
            match spec_pad_to_voice(note) {
                Some(voice) => MidiAction::Trigger { voice, velocity, reply: (0x90u8, note, velocity) },
                None => MidiAction::Nothing,
            }
        } else if status == 0x80 || status == 0x90 {
            MidiAction::LightOff { reply: (0x80u8, note, 0u8) }
        } else {
            MidiAction::Nothing
        }
    }
}

/// Handle one raw MIDI message from the controller: Note On lights the pad
/// and triggers that voice; Note Off (or Note On velocity 0) turns the pad's
/// light back off.
pub fn midi_action(message: &[u8]) -> (r: MidiAction)
    ensures
        r == spec_midi_action(message@),
{
    if message.len() < 3 {
        return MidiAction::Nothing;
    }
    let status = message[0] & 0xF0u8;
    let note = message[1];
    let velocity = message[2];
    if status == 0x90 && velocity > 0 {
        match pad_to_voice(note) {
            Some(voice) => MidiAction::Trigger { voice, velocity, reply: (0x90u8, note, velocity) },
            None => MidiAction::Nothing,
        }
    } else if status == 0x80 || status == 0x90 {
        MidiAction::LightOff { reply: (0x80u8, note, 0u8) }
    } else {
        MidiAction::Nothing
    }
}

/// The note a pad press plays: `voice`'s default note at the pad's velocity
/// (out of 127), for half a second, as the longest note length.
pub fn pad_note_command(voice: usize, default_midi_note: u8, velocity: u8, sample_rate: u32) -> (c:
    NoteCommand)
    ensures
        c == (NoteCommand {
            channel: voice,
            midi_note: default_midi_note,
            velocity_num: velocity,
            velocity_den: 127,
            length_units: 35,
            length_samples: (sample_rate / 2) as u64,
        }),
{
    NoteCommand {
        channel: voice,
        midi_note: default_midi_note,
        velocity_num: velocity,
        velocity_den: 127,
        length_units: 35,
        length_samples: (sample_rate / 2) as u64,
    }
}

/// Name that the controller's MIDI ports contain.
pub open spec fn spec_port_name_match() -> Seq<char> {
    "Launchpad X"@
}

/// Whether `needle` occurs in `hay` starting at position `i`.
pub open spec fn spec_occurs_at(hay: Seq<char>, needle: Seq<char>, i: int) -> bool {
    0 <= i && i + needle.len() <= hay.len() && hay.subrange(i, i + needle.len()) == needle
}

/// Whether a MIDI port's name names the controller.
pub fn is_controller_port(name: &str) -> (r: bool)
    ensures
        r == exists|i: int| spec_occurs_at(name@, spec_port_name_match(), i),
{
    let hay = str_chars(name);
    let needle = str_chars("Launchpad X");
    let n = hay.len();
    let m = needle.len();
    if m > n {
        assert forall|i: int| !spec_occurs_at(name@, spec_port_name_match(), i) by {}
        return false;
    }
    let mut i: usize = 0;
    while i <= n - m
        invariant
            hay@ == name@,
            needle@ == spec_port_name_match(),
            m == needle@.len(),
            n == hay@.len(),
            m <= n,
            i <= n - m + 1,
            forall|j: int| 0 <= j < i ==> !spec_occurs_at(name@, spec_port_name_match(), j),
        decreases n - i,
    {
        let mut k: usize = 0;
        while k < m && hay[i + k] == needle[k]
            invariant
                k <= m,
                i + m <= n,
                hay@ == name@,
                needle@ == spec_port_name_match(),
                m == needle@.len(),
                n == hay@.len(),
                forall|t: int| 0 <= t < k ==> hay@[i + t] == needle@[t],
            decreases m - k,
        {
            k = k + 1;
        }
        if k == m {
            assert(hay@.subrange(i as int, i + m) =~= needle@);
            assert(spec_occurs_at(name@, spec_port_name_match(), i as int));
            return true;
        }
        assert(!spec_occurs_at(name@, spec_port_name_match(), i as int)) by {
            if spec_occurs_at(name@, spec_port_name_match(), i as int) {
                assert(hay@.subrange(i as int, i + m)[k as int] == hay@[i + k]);
            }
        }
        i = i + 1;
    }
    assert forall|j: int| !spec_occurs_at(name@, spec_port_name_match(), j) by {
        if 0 <= j < i {
        }
    }
    false
}

} // verus!
