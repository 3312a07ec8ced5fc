//! The logic of a terminal synthesizer driven by Orca-style UDP note
//! commands and a Launchpad X controller: the command parser, the pad and
//! voice-grid layouts, the decisions of the UI pages, and the integer state
//! machines (envelope stages, note timers, the sequencer clock, delay lines)
//! that the audio code drives.

use vstd::prelude::*;

pub mod delay_line;
pub mod effect_group;
pub mod effect_kinds;
pub mod envelope;
pub mod fx_panel;
pub mod keys;
pub mod messages;
pub mod midi_message;
pub mod midi_pad;
pub mod noise;
pub mod note_timer;
pub mod note_names;
pub mod note_parser;
pub mod preset;
pub mod routing_panel;
pub mod sequencer_clock;
pub mod sequencer_panel;
pub mod status;
pub mod ui_mode;
pub mod voice_panel;

verus! {
} // verus!
