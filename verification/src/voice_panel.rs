//! Navigation and editing decisions of the voice page: a grid of the 16
//! voices and, while editing, a list of 14 parameters of the selected voice.

use vstd::prelude::*;

use crate::keys::{KeyCode, KeyPress};
use crate::messages::OscillatorType;
use crate::midi_pad::{spec_decode_pad, spec_pad_to_voice};

verus! {

/// Number of editable parameters of a voice:
/// 0-2 oscillator (wave, note, velocity), 3-5 sub-oscillator (on, octave,
/// level), 6-9 envelope (attack, decay, sustain, release), 10-13 sends.
pub const PARAM_COUNT: usize = 14;

/// The settings of the selected voice that editing decisions depend on.
#[derive(Debug, Clone, Copy, PartialEq, Eq, Structural)]
pub struct VoiceSettings {
    pub osc_type: OscillatorType,
    pub default_midi_note: u8,
    pub sub_osc_enabled: bool,
    pub sub_osc_octave: i32,
}

/// What a key press on the voice page asks of the synth. The changes whose
/// new value is a fraction (velocities, levels, envelope times, sends) carry
/// the direction and step size of the change; the others carry the new value.
#[derive(Debug, Clone, Copy, PartialEq, Eq, Structural)]
pub enum VoiceAction {
    Nothing,
    /// Play the voice's default note.
    Trigger { voice: usize },
    SetOscillator { voice: usize, osc_type: OscillatorType },
    SetDefaultNote { voice: usize, midi_note: u8 },
    AdjustDefaultVelocity { voice: usize, dir: i32, fine: bool },
    /// Set the sub-oscillator's switch and octave, keeping its level.
    SetSubOsc { voice: usize, enabled: bool, octave: i32 },
    AdjustSubLevel { voice: usize, dir: i32, fine: bool },
    /// Change envelope stage `stage` (0 attack, 1 decay, 2 sustain, 3 release).
    AdjustEnvelope { voice: usize, stage: usize, dir: i32, fine: bool },
    AdjustSend { voice: usize, group: usize, dir: i32, fine: bool },
    /// Apply the clipboard's settings to the voice.
    Paste { voice: usize },
}

/// Cursor of the voice page. `C` is what the clipboard holds.
pub struct VoicePanel<C> {
    pub selected_voice: usize,
    /// Whether we are in edit mode (Enter toggles).
    pub editing: bool,
    /// Which parameter is highlighted when editing (0-13).
    pub selected_param: usize,
    pub clipboard: Option<C>,
}

// ---------------------------------------------------------------------------
// Grid layout

/// Visual `(row, col)` of a voice in the 2 x 8 grid: voices 0-7 fill the
/// left half (four per row), voices 8-15 the right half.
pub open spec fn spec_voice_to_grid(v: int) -> (int, int) {
    if v < 4 {
        (0, v)
    } else if v < 8 {
        (1, v - 4)
    } else if v < 12 {
        (0, v - 4)
    } else {
        (1, v - 8)
    }
}

pub open spec fn spec_grid_to_voice(row: int, col: int) -> int {
    if col < 4 {
        row * 4 + col
    } else {
        8 + row * 4 + (col - 4)
    }
}

pub open spec fn spec_clamp(x: int, lo: int, hi: int) -> int {
    if x < lo {
        lo
    } else if x > hi {
        hi
    } else {
        x
    }
}

/// The voice reached from `v` by moving `drow` rows and `dcol` columns in
/// the grid, stopping at its edges.
pub open spec fn spec_move_grid(v: int, drow: int, dcol: int) -> int {
    let (row, col) = spec_voice_to_grid(v);
    spec_grid_to_voice(spec_clamp(row + drow, 0, 1), spec_clamp(col + dcol, 0, 7))
}

/// The oscillator type `dir` places after `t` in the list of all types,
/// wrapping around at both ends.
pub open spec fn spec_cycle_osc(t: OscillatorType, dir: int, r: OscillatorType) -> bool {
    r.spec_index() == (t.spec_index() + dir) % 16
}

fn voice_to_grid(v: usize) -> (r: (usize, usize))
    requires
        v < 16,
    ensures
        (r.0 as int, r.1 as int) == spec_voice_to_grid(v as int),
{
    if v < 4 {
        (0, v)
    } else if v < 8 {
        (1, v - 4)
    } else if v < 12 {
        (0, v - 4)
    } else {
        (1, v - 8)
    }
}

fn grid_to_voice(row: usize, col: usize) -> (v: usize)
    requires
        row < 2,
        col < 8,
    ensures
        v == spec_grid_to_voice(row as int, col as int),
{
    if col < 4 {
        row * 4 + col
    } else {
        8 + row * 4 + (col - 4)
    }
}

fn clamp_i64(x: i64, lo: i64, hi: i64) -> (r: i64)
    requires
        lo <= hi,
    ensures
        r == spec_clamp(x as int, lo as int, hi as int),
{
    if x < lo {
        lo
    } else if x > hi {
        hi
    } else {
        x
    }
}

/// The oscillator type after `current` in the list of all types, moving
/// `dir` places and wrapping around.
pub fn cycle_osc(current: OscillatorType, dir: i32) -> (r: OscillatorType)
    ensures
        spec_cycle_osc(current, dir as int, r),
{
    let types = OscillatorType::all();
    let mut idx: usize = 0;
    while idx < 16 && types[idx] != current
        invariant
            idx <= 16,
            types@.len() == 16,
            forall|i: int| 0 <= i < 16 ==> (#[trigger] types@[i]).spec_index() == i,
            forall|i: int| 0 <= i < idx ==> types@[i] != current,
        decreases 16 - idx,
    {
        idx = idx + 1;
    }
    assert(idx < 16 && types@[idx as int] == current) by {
        if idx == 16 {
            let k = current.spec_index();
            assert(types@[k] == current);
        }
    }
    // Shift by a multiple of 16 to stay non-negative before taking the remainder.
    let shifted: i64 = idx as i64 + dir as i64 + 4294967296;
    let new_idx = (shifted as u64 % 16) as usize;
    assert(new_idx == (current.spec_index() + dir as int) % 16);
    types[new_idx]
}

// ---------------------------------------------------------------------------
// Key handling

impl<C> VoicePanel<C> {
    /// The cursor points at one of the 16 voices and one of the parameters.
    pub open spec fn wf(&self) -> bool {
        self.selected_voice < 16 && self.selected_param < PARAM_COUNT
    }

    pub fn new() -> (p: Self)
        ensures
            p.selected_voice == 0,
            !p.editing,
            p.selected_param == 0,
            p.clipboard is None,
            p.wf(),
    {
        VoicePanel { selected_voice: 0, editing: false, selected_param: 0, clipboard: None }
    }

    fn move_grid(&mut self, drow: i32, dcol: i32)
        requires
            old(self).selected_voice < 16,
        ensures
            final(self).selected_voice == spec_move_grid(
                old(self).selected_voice as int,
                drow as int,
                dcol as int,
            ),
            final(self).selected_voice < 16,
            final(self).editing == old(self).editing,
            final(self).selected_param == old(self).selected_param,
            final(self).clipboard == old(self).clipboard,
    {
        let (row, col) = voice_to_grid(self.selected_voice);
        let new_row = clamp_i64(row as i64 + drow as i64, 0, 1) as usize;
        let new_col = clamp_i64(col as i64 + dcol as i64, 0, 7) as usize;
        self.selected_voice = grid_to_voice(new_row, new_col);
    }

    pub open spec fn spec_help_text(&self) -> Seq<char> {
        if self.editing {
            "↑↓:Select param  ←→:Adjust  Shift:Fine  Space:Trigger  Enter/Esc:Done editing  q:Quit"@
        } else {
            "↑↓←→:Navigate voice  Tab:Next  Space:Trigger  Enter:Edit  o:Cycle osc  c:Copy  p:Paste  q:Quit"@
        }
    }

    pub fn help_text(&self) -> (r: &'static str)
        ensures
            r@ == self.spec_help_text(),
    {
        if self.editing {
            "↑↓:Select param  ←→:Adjust  Shift:Fine  Space:Trigger  Enter/Esc:Done editing  q:Quit"
        } else {
            "↑↓←→:Navigate voice  Tab:Next  Space:Trigger  Enter:Edit  o:Cycle osc  c:Copy  p:Paste  q:Quit"
        }
    }

    /// The change that adjusting parameter `param` of `voice` by one step in
    /// direction `dir` asks for.
    pub open spec fn spec_adjust(
        voice: usize,
        param: usize,
        dir: i32,
        fine: bool,
        s: VoiceSettings,
        r: VoiceAction,
    ) -> bool {
        if param == 0 {
            r matches VoiceAction::SetOscillator { voice: v, osc_type } && v == voice
                && spec_cycle_osc(s.osc_type, dir as int, osc_type)
        } else if param == 1 {
            let step: int = if fine { 1 } else { 12 };
            r == VoiceAction::SetDefaultNote {
                voice,
                midi_note: spec_clamp(s.default_midi_note + dir * step, 0, 127) as u8,
            }
        } else if param == 2 {
            r == VoiceAction::AdjustDefaultVelocity { voice, dir, fine }
        } else if param == 3 {
            r == VoiceAction::SetSubOsc {
                voice,
                enabled: !s.sub_osc_enabled,
                octave: s.sub_osc_octave,
            }
        } else if param == 4 {
            r == VoiceAction::SetSubOsc {
                voice,
                enabled: s.sub_osc_enabled,
                octave: spec_clamp(s.sub_osc_octave + dir, -2, 2) as i32,
            }
        } else if param == 5 {
            r == VoiceAction::AdjustSubLevel { voice, dir, fine }
        } else if 6 <= param <= 9 {
            r == VoiceAction::AdjustEnvelope { voice, stage: (param - 6) as usize, dir, fine }
        } else if 10 <= param <= 13 {
            r == VoiceAction::AdjustSend { voice, group: (param - 10) as usize, dir, fine }
        } else {
            r == VoiceAction::Nothing
        }
    }

    /// Adjust the currently selected parameter by `dir` (+1 or -1).
    fn adjust_param(&self, s: VoiceSettings, dir: i32, fine: bool) -> (r: VoiceAction)
        requires
            dir == 1 || dir == -1,
        ensures
            Self::spec_adjust(self.selected_voice, self.selected_param, dir, fine, s, r),
    {
        let voice = self.selected_voice;
        let param = self.selected_param;
        if param == 0 {
            VoiceAction::SetOscillator { voice, osc_type: cycle_osc(s.osc_type, dir) }
        } else if param == 1 {
            let step: i64 = if fine { 1 } else { 12 };
            let new_note = clamp_i64(s.default_midi_note as i64 + dir as i64 * step, 0, 127) as u8;
            VoiceAction::SetDefaultNote { voice, midi_note: new_note }
        } else if param == 2 {
            VoiceAction::AdjustDefaultVelocity { voice, dir, fine }
        } else if param == 3 {
            VoiceAction::SetSubOsc { voice, enabled: !s.sub_osc_enabled, octave: s.sub_osc_octave }
        } else if param == 4 {
            let new_oct = clamp_i64(s.sub_osc_octave as i64 + dir as i64, -2, 2) as i32;
            VoiceAction::SetSubOsc { voice, enabled: s.sub_osc_enabled, octave: new_oct }
        } else if param == 5 {
            VoiceAction::AdjustSubLevel { voice, dir, fine }
        } else if 6 <= param && param <= 9 {
            VoiceAction::AdjustEnvelope { voice, stage: param - 6, dir, fine }
        } else if 10 <= param && param <= 13 {
            VoiceAction::AdjustSend { voice, group: param - 10, dir, fine }
        } else {
            VoiceAction::Nothing
        }
    }

    /// What a key press does on the voice page: Space plays the selected
    /// voice; while editing, Up/Down pick a parameter, Left/Right adjust it and
    /// Enter/Esc stop editing; otherwise the arrows move through the grid,
    /// Tab/Shift+Tab step through the voices, Enter starts editing, `o` cycles
    /// the oscillator, `c` keeps `clip` (the voice's settings) in the
    /// clipboard and `p` pastes the clipboard onto the voice.
    pub open spec fn spec_handled(
        pre: Self,
        key: KeyPress,
        s: VoiceSettings,
        clip: C,
        post: Self,
        r: VoiceAction,
    ) -> bool {
        &&& post.clipboard == (if !pre.editing && key.code == KeyCode::Char('c') {
            Some(clip)
        } else {
            pre.clipboard
        })
        &&& (key.code == KeyCode::Char(' ') ==> {
            &&& r == (VoiceAction::Trigger { voice: pre.selected_voice })
            &&& post.selected_voice == pre.selected_voice
            &&& post.editing == pre.editing
            &&& post.selected_param == pre.selected_param
        })
        &&& (key.code != KeyCode::Char(' ') && pre.editing ==> {
                &&& post.selected_voice == pre.selected_voice
                &&& post.selected_param == (if key.code == KeyCode::Up {
                    if pre.selected_param == 0 { 0 } else { (pre.selected_param - 1) as usize }
                } else if key.code == KeyCode::Down {
                    if pre.selected_param + 1 < PARAM_COUNT {
                        (pre.selected_param + 1) as usize
                    } else {
                        (PARAM_COUNT - 1) as usize
                    }
                } else {
                    pre.selected_param
                })
                &&& post.editing == !(key.code == KeyCode::Enter || key.code == KeyCode::Esc)
                &&& key.code == KeyCode::Left ==> Self::spec_adjust(
                    pre.selected_voice,
                    pre.selected_param,
                    -1i32,
                    key.shift,
                    s,
                    r,
                )
                &&& key.code == KeyCode::Right ==> Self::spec_adjust(
                    pre.selected_voice,
                    pre.selected_param,
                    1i32,
                    key.shift,
                    s,
                    r,
                )
                &&& key.code != KeyCode::Left && key.code != KeyCode::Right ==> r == VoiceAction::Nothing
            })
        &&& (key.code != KeyCode::Char(' ') && !pre.editing ==> {
                &&& post.selected_param == pre.selected_param
                &&& post.selected_voice == (if key.code == KeyCode::Up {
                    spec_move_grid(pre.selected_voice as int, -1, 0)
                } else if key.code == KeyCode::Down {
                    spec_move_grid(pre.selected_voice as int, 1, 0)
                } else if key.code == KeyCode::Left {
                    spec_move_grid(pre.selected_voice as int, 0, -1)
                } else if key.code == KeyCode::Right {
                    spec_move_grid(pre.selected_voice as int, 0, 1)
                } else if key.code == KeyCode::Tab {
                    (pre.selected_voice + 1) % 16
                } else if key.code == KeyCode::BackTab {
                    if pre.selected_voice == 0 { 15 } else { pre.selected_voice - 1 }
                } else {
                    pre.selected_voice as int
                })
                &&& post.editing == (key.code == KeyCode::Enter)
                &&& key.code == KeyCode::Char('o') ==> (r matches VoiceAction::SetOscillator {
                    voice,
                    osc_type,
                } && voice == pre.selected_voice && spec_cycle_osc(s.osc_type, 1, osc_type))
                &&& key.code == KeyCode::Char('p') ==> r == (if pre.clipboard is Some {
                    VoiceAction::Paste { voice: pre.selected_voice }
                } else {
                    VoiceAction::Nothing
                })
                &&& (key.code != KeyCode::Char('o') && key.code != KeyCode::Char('p'))
                    ==> r == VoiceAction::Nothing
            })
    }

    /// Handle a key press on the voice page; returns what it asks of the
    /// synth. `s` holds the selected voice's current settings and `clip`
    /// what a copy of that voice keeps.
    pub fn handle_key(&mut self, key: KeyPress, s: VoiceSettings, clip: C) -> (r: VoiceAction)
        requires
            old(self).selected_voice < 16,
        ensures
            final(self).selected_voice < 16,
            old(self).wf() ==> final(self).wf(),
            Self::spec_handled(*old(self), key, s, clip, *final(self), r),
    {
        let fine = key.shift;
        if key.code == KeyCode::Char(' ') {
            return VoiceAction::Trigger { voice: self.selected_voice };
        }
        if self.editing {
            match key.code {
                KeyCode::Up => {
                    if self.selected_param > 0 {
                        self.selected_param = self.selected_param - 1;
                    }
                    VoiceAction::Nothing
                },
                KeyCode::Down => {
                    if self.selected_param < PARAM_COUNT - 1 {
                        self.selected_param = self.selected_param + 1;
                    } else {
                        self.selected_param = PARAM_COUNT - 1;
                    }
                    VoiceAction::Nothing
                },
                KeyCode::Left => self.adjust_param(s, -1, fine),
                KeyCode::Right => self.adjust_param(s, 1, fine),
                KeyCode::Enter | KeyCode::Esc => {
                    self.editing = false;
                    VoiceAction::Nothing
                },
                _ => VoiceAction::Nothing,
            }
        } else {
            match key.code {
                KeyCode::Up => {
                    self.move_grid(-1, 0);
                    VoiceAction::Nothing
                },
                KeyCode::Down => {
                    self.move_grid(1, 0);
                    VoiceAction::Nothing
                },
                KeyCode::Left => {
                    self.move_grid(0, -1);
                    VoiceAction::Nothing
                },
                KeyCode::Right => {
                    self.move_grid(0, 1);
                    VoiceAction::Nothing
                },
                KeyCode::Tab => {
                    self.selected_voice = (self.selected_voice + 1) % 16;
                    VoiceAction::Nothing
                },
                KeyCode::BackTab => {
                    self.selected_voice = if self.selected_voice == 0 {
                        15
                    } else {
                        self.selected_voice - 1
                    };
                    VoiceAction::Nothing
                },
                KeyCode::Enter => {
                    self.editing = true;
                    VoiceAction::Nothing
                },
                KeyCode::Char('o') => VoiceAction::SetOscillator {
                    voice: self.selected_voice,
                    osc_type: cycle_osc(s.osc_type, 1),
                },
                KeyCode::Char('c') => {
                    self.clipboard = Some(clip);
                    VoiceAction::Nothing
                },
                KeyCode::Char('p') => if self.clipboard.is_some() {
                    VoiceAction::Paste { voice: self.selected_voice }
                } else {
                    VoiceAction::Nothing
                },
                _ => VoiceAction::Nothing,
            }
        }
    }
}

// ---------------------------------------------------------------------------
// Laws

/// The grid places each of the 16 voices in exactly one of its 2 x 8 cells.
pub proof fn lemma_grid_round_trip(v: int, row: int, col: int)
    ensures
        0 <= v < 16 ==> ({
            let (r, c) = spec_voice_to_grid(v);
            &&& 0 <= r < 2 && 0 <= c < 8
            &&& spec_grid_to_voice(r, c) == v
        }),
        (0 <= row < 2 && 0 <= col < 8) ==> ({
            let v2 = spec_grid_to_voice(row, col);
            &&& 0 <= v2 < 16
            &&& spec_voice_to_grid(v2) == (row, col)
        }),
{
}

/// Tab and Shift+Tab step through the 16 voices in opposite directions:
/// one undoes the other.
pub proof fn lemma_tab_backtab(v: int)
    requires
        0 <= v < 16,
    ensures
        ({
            let next = (v + 1) % 16;
            let back = if next == 0 { 15 } else { next - 1 };
            back == v
        }),
        ({
            let prev = if v == 0 { 15 } else { v - 1 };
            (prev + 1) % 16 == v
        }),
{
}

/// Cycling the oscillator type one step forward and one step back returns
/// the type one started from.
pub proof fn lemma_cycle_osc_undo(t: OscillatorType, a: OscillatorType, b: OscillatorType)
    requires
        spec_cycle_osc(t, 1, a),
        spec_cycle_osc(a, -1, b),
    ensures
        b == t,
{
}

/// The pads of the controller's bottom two rows trigger the voice shown in
/// the same place of the voice page's grid.
pub proof fn lemma_pads_mirror_grid(note: u8)
    requires
        spec_decode_pad(note) matches Some((row, col)) && row <= 2,
    ensures
        ({
            let (row, col) = spec_decode_pad(note)->0;
            spec_pad_to_voice(note) == Some(spec_grid_to_voice(row - 1, col - 1) as usize)
        }),
{
}

/// Copying a voice and then pasting, on the same or another voice, pastes
/// the copied settings: the clipboard holds them and the paste names the
/// voice under the cursor.
pub proof fn lemma_copy_then_paste<C>(
    pre: VoicePanel<C>,
    copy_key: KeyPress,
    s: VoiceSettings,
    clip: C,
    copied: VoicePanel<C>,
    r1: VoiceAction,
    moved: VoicePanel<C>,
    paste_key: KeyPress,
    s2: VoiceSettings,
    clip2: C,
    post: VoicePanel<C>,
    r2: VoiceAction,
)
    requires
        !pre.editing,
        copy_key.code == KeyCode::Char('c'),
        VoicePanel::spec_handled(pre, copy_key, s, clip, copied, r1),
        moved.clipboard == copied.clipboard,
        !moved.editing,
        paste_key.code == KeyCode::Char('p'),
        VoicePanel::spec_handled(moved, paste_key, s2, clip2, post, r2),
    ensures
        r1 == VoiceAction::Nothing,
        copied.clipboard == Some(clip),
        r2 == (VoiceAction::Paste { voice: moved.selected_voice }),
        post.clipboard == Some(clip),
{
}

/// What adjusting each voice parameter changes: parameters 6 to 9 are the
/// envelope's attack, decay, sustain and release (stage `param - 6`),
/// parameters 10 to 13 the sends to groups A to D (group `param - 10`), 1
/// the default note (an octave per step, a semitone when fine, kept within
/// 0-127), 3 the sub-oscillator's switch and 4 its octave (kept within -2 to
/// 2); every change is addressed to the voice being edited and carries the
/// direction and fineness of the key press.
pub proof fn lemma_adjust_targets(
    voice: usize,
    param: usize,
    dir: i32,
    fine: bool,
    s: VoiceSettings,
    r: VoiceAction,
)
    requires
        dir == 1 || dir == -1,
        VoicePanel::<()>::spec_adjust(voice, param, dir, fine, s, r),
    ensures
        6 <= param <= 9 ==> (r matches VoiceAction::AdjustEnvelope { voice: v, stage, dir: d, fine: f }
            && v == voice && stage + 6 == param && d == dir && f == fine),
        10 <= param <= 13 ==> (r matches VoiceAction::AdjustSend { voice: v, group, dir: d, fine: f }
            && v == voice && group + 10 == param && d == dir && f == fine),
        param == 1 ==> (r matches VoiceAction::SetDefaultNote { voice: v, midi_note } && v == voice
            && midi_note == ({
            let wanted = s.default_midi_note + dir * (if fine { 1int } else { 12int });
            if wanted < 0 { 0 } else if wanted > 127 { 127 } else { wanted }
        })),
        param == 2 ==> r == (VoiceAction::AdjustDefaultVelocity { voice, dir, fine }),
        param == 3 ==> r == (VoiceAction::SetSubOsc {
            voice,
            enabled: !s.sub_osc_enabled,
            octave: s.sub_osc_octave,
        }),
        param == 4 ==> (r matches VoiceAction::SetSubOsc { voice: v, enabled, octave } && v == voice
            && enabled == s.sub_osc_enabled && -2 <= octave <= 2 && (
        (-2 <= s.sub_osc_octave + dir <= 2 ==> octave == s.sub_osc_octave + dir))),
        param == 5 ==> r == (VoiceAction::AdjustSubLevel { voice, dir, fine }),
        param >= 14 ==> r == VoiceAction::Nothing,
{
}

} // verus!
