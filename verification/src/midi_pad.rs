//! Mapping of a Launchpad X grid pad to one of the synth's voices.

use vstd::prelude::*;

verus! {

/// Row and column (both 1-based, row 1 at the bottom) of the grid pad that a
/// note number names, where the note is `row * 10 + col`.
pub open spec fn spec_decode_pad(note: u8) -> Option<(u8, u8)> {
    let row = (note / 10) as u8;
    let col = (note % 10) as u8;
    if 1 <= row <= 8 && 1 <= col <= 8 {
        Some((row, col))
    } else {
        None
    }
}

/// Voice number of the pad at 0-based `row` and `col`: the left four columns
/// count voices from 0, the right four from 8, four voices per row.
pub open spec fn spec_layout_voice(row: int, col: int) -> int {
    (col / 4) * 8 + row * 4 + col % 4
}

/// The voice that a pad note triggers: pads of the bottom four rows of the
/// grid map by `spec_layout_voice` when that names one of the 16 voices;
/// every other note maps to nothing.
pub open spec fn spec_pad_to_voice(note: u8) -> Option<usize> {
    match spec_decode_pad(note) {
        Some((row, col)) => if row > 4 {
            None
        } else {
            let v = spec_layout_voice(row - 1, col - 1);
            if v < 16 {
                Some(v as usize)
            } else {
                None
            }
        },
        None => None,
    }
}

/// Decode a grid pad's note number (11-88, `row * 10 + col`, 1-indexed,
/// row 1 = bottom) into `(row, col)`, or `None` if it is not a grid pad.
fn decode_pad(note: u8) -> (res: Option<(u8, u8)>)
    ensures
        res == spec_decode_pad(note),
{
    let row = note / 10;
    let col = note % 10;
    if 1 <= row && row <= 8 && 1 <= col && col <= 8 {
        Some((row, col))
    } else {
        None
    }
}

/// Map a grid pad to one of the synth's 16 voices, mirroring the voice grid
/// layout (two halves side by side, `voice = half * 8 + row * 4 + col`).
/// Uses the bottom 4 rows of the 8x8 grid; the top 4 rows are unused, and so
/// are the pads of the right half whose number would pass the last voice.
pub fn pad_to_voice(note: u8) -> (res: Option<usize>)
    ensures
        res == spec_pad_to_voice(note),
{
    let (row, col) = match decode_pad(note) {
        Some(rc) => rc,
        None => return None,
    };
    if row > 4 {
        return None;
    }
    let overall_row = (row - 1) as usize;
    let overall_col = (col - 1) as usize;
    let half = overall_col / 4;
    let local_col = overall_col % 4;
    let voice = half * 8 + overall_row * 4 + local_col;
    if voice < 16 {
        Some(voice)
    } else {
        None
    }
}

/// Every pad that maps to a voice maps to one of the 16 voices.
pub proof fn lemma_pad_voice_bounds(note: u8)
    ensures
        spec_pad_to_voice(note) matches Some(v) ==> v < 16,
{
}

/// A note reaches a voice exactly when it is a grid pad in rows 1 to 4,
/// except the pads of rows 3 and 4 in the right half (columns 5 to 8).
pub proof fn lemma_pad_voice_domain(note: u8)
    ensures
        spec_pad_to_voice(note) is Some <==> (
            1 <= note / 10 <= 4 && 1 <= note % 10 <= 8
            && !(note / 10 >= 3 && note % 10 >= 5)),
{
}

/// On the bottom two rows the pads map one to one onto the 16 voices: two
/// different pads there give two different voices, and every voice has a pad.
pub proof fn lemma_bottom_rows_one_to_one(a: u8, b: u8, voice: usize)
    ensures
        (1 <= a / 10 <= 2 && 1 <= b / 10 <= 2 && spec_pad_to_voice(a) is Some
            && spec_pad_to_voice(a) == spec_pad_to_voice(b)) ==> a == b,
        voice < 16 ==> ({
            let row = (voice % 8) / 4;
            let col = (voice / 8) * 4 + voice % 4;
            let pad = ((row + 1) * 10 + col + 1) as u8;
            &&& 1 <= pad / 10 <= 2
            &&& spec_pad_to_voice(pad) == Some(voice)
        }),
{
}

} // verus!
