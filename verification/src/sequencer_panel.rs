//! Navigation and editing decisions of the step-sequencer page: a grid of
//! 16 voices by up to 16 steps, and three global parameters (BPM, step
//! count, swing).

use vstd::prelude::*;

use crate::keys::{KeyCode, KeyPress};
use crate::voice_panel::spec_clamp;

verus! {

/// Cursor of the sequencer page. `S` is what the clipboard holds for one step.
pub struct SequencerPanel<S> {
    pub selected_voice: usize,
    pub selected_step: usize,
    pub editing_global: bool,
    /// 0 = BPM, 1 = steps, 2 = swing
    pub global_param: usize,
    pub clipboard: Option<[S; 16]>,
}

/// What a key press on the sequencer page asks of the synth.
#[derive(Debug, Clone, Copy, PartialEq, Eq, Structural)]
pub enum SeqAction {
    Nothing,
    /// Change the tempo by one step in direction `dir` (0.1 BPM when
    /// `fine`, else 1 BPM).
    AdjustBpm { dir: i32, fine: bool },
    SetStepCount { count: usize },
    /// Change the swing by one step in direction `dir`.
    AdjustSwing { dir: i32, fine: bool },
    /// Switch a step on (`enabled`) or off, keeping its note and velocity.
    SetStepEnabled { voice: usize, step: usize, enabled: bool },
    /// Give a step a new note, keeping whether it is on and its velocity.
    SetStepNote { voice: usize, step: usize, midi_note: u8 },
    TogglePlay,
    Stop,
    /// Write the clipboard's row of steps over a voice's row.
    PasteRow { voice: usize },
    ClearRow { voice: usize },
    ClearAll,
}

/// How a cell of the step grid is shown: under the cursor, under the
/// playhead, or plain, each for a step that is on or off.
#[derive(Debug, Clone, Copy, PartialEq, Eq, Structural)]
pub enum StepCellLook {
    CursorOn,
    CursorOff,
    PlayheadOn,
    PlayheadOff,
    On,
    Off,
}

/// The look of a grid cell: the cursor takes precedence over the playhead.
pub open spec fn spec_step_cell_look(enabled: bool, is_cursor: bool, is_playhead: bool) -> StepCellLook {
    if is_cursor {
        if enabled { StepCellLook::CursorOn } else { StepCellLook::CursorOff }
    } else if is_playhead {
        if enabled { StepCellLook::PlayheadOn } else { StepCellLook::PlayheadOff }
    } else if enabled {
        StepCellLook::On
    } else {
        StepCellLook::Off
    }
}

/// The look of a grid cell for a step that is on (`enabled`) or off, and
/// whether the cursor or the playhead is on it.
pub fn step_cell_look(enabled: bool, is_cursor: bool, is_playhead: bool) -> (r: StepCellLook)
    ensures
        r == spec_step_cell_look(enabled, is_cursor, is_playhead),
{
    match (enabled, is_cursor, is_playhead) {
        (true, true, _) => StepCellLook::CursorOn,
        (false, true, _) => StepCellLook::CursorOff,
        (true, false, true) => StepCellLook::PlayheadOn,
        (false, false, true) => StepCellLook::PlayheadOff,
        (true, false, false) => StepCellLook::On,
        (false, false, false) => StepCellLook::Off,
    }
}

impl<S> SequencerPanel<S> {
    /// The cursor is on one of the 16 voices, one of the 16 steps and one of
    /// the 3 global parameters.
    pub open spec fn wf(&self) -> bool {
        self.selected_voice < 16 && self.selected_step < 16 && self.global_param < 3
    }

    pub fn new() -> (p: Self)
        ensures
            p.selected_voice == 0,
            p.selected_step == 0,
            !p.editing_global,
            p.global_param == 0,
            p.clipboard is None,
            p.wf(),
    {
        SequencerPanel {
            selected_voice: 0,
            selected_step: 0,
            editing_global: false,
            global_param: 0,
            clipboard: None,
        }
    }

    pub open spec fn spec_help_text(&self) -> Seq<char> {
        if self.editing_global {
            "↑↓:Param  ←→:Adjust  Tab/Esc:Back to grid"@
        } else {
            "↑↓←→:Navigate  Space:Toggle  p:Play/Stop  r:Reset  Tab:Global  c:Copy  v:Paste  z:Clear row  Z:Clear all  q:Quit"@
        }
    }

    pub fn help_text(&self) -> (r: &'static str)
        ensures
            r@ == self.spec_help_text(),
    {
        if self.editing_global {
            "↑↓:Param  ←→:Adjust  Tab/Esc:Back to grid"
        } else {
            "↑↓←→:Navigate  Space:Toggle  p:Play/Stop  r:Reset  Tab:Global  c:Copy  v:Paste  z:Clear row  Z:Clear all  q:Quit"
        }
    }

    /// A key press while the global parameters are being edited: Tab/Esc go
    /// back to the grid, Up/Down pick a parameter, Left/Right change it (the
    /// step count by one, between 1 and 16).
    pub open spec fn spec_global_key(pre: Self, key: KeyPress, step_count: usize, post: Self, r: SeqAction) -> bool {
        let dir: i32 = if key.code == KeyCode::Right { 1i32 } else { -1i32 };
        &&& post.selected_voice == pre.selected_voice
        &&& post.selected_step == pre.selected_step
        &&& post.clipboard == pre.clipboard
        &&& post.editing_global == !(key.code == KeyCode::Tab || key.code == KeyCode::Esc)
        &&& post.global_param == (if key.code == KeyCode::Up {
            if pre.global_param == 0 { 0 } else { (pre.global_param - 1) as usize }
        } else if key.code == KeyCode::Down {
            if pre.global_param + 1 < 2 { (pre.global_param + 1) as usize } else { 2 }
        } else {
            pre.global_param
        })
        &&& r == (if key.code == KeyCode::Left || key.code == KeyCode::Right {
            if pre.global_param == 0 {
                SeqAction::AdjustBpm { dir, fine: key.shift }
            } else if pre.global_param == 1 {
                SeqAction::SetStepCount { count: spec_clamp(step_count + dir, 1, 16) as usize }
            } else {
                SeqAction::AdjustSwing { dir, fine: key.shift }
            }
        } else {
            SeqAction::Nothing
        })
    }

    /// A key press on the step grid. `step_count` is the pattern's number of
    /// steps, `step_note` and `step_enabled` the note and the on/off flag of
    /// the step under the cursor, and `row` the steps of the cursor's voice.
    /// Arrows move the cursor (Right no further than the last step), Space
    /// switches the step off when it is on and on when it is off, `+`/`=` and `-` move its note a semitone (an octave
    /// with Shift), `p` starts or stops playback, `r` stops and rewinds, `c`
    /// keeps `row` in the clipboard, `v` pastes the clipboard over the voice's
    /// row, `z` clears the row, `Z` clears the pattern and Tab goes to the
    /// global parameters.
    pub open spec fn spec_grid_key(
        pre: Self,
        key: KeyPress,
        step_count: usize,
        step_note: u8,
        step_enabled: bool,
        row: [S; 16],
        post: Self,
        r: SeqAction,
    ) -> bool {
        let v = pre.selected_voice;
        let s = pre.selected_step;
        let delta: int = if key.shift { 12 } else { 1 };
        let max_step: int = if step_count == 0 { 0 } else { step_count - 1 };
        &&& post.clipboard == (if key.code == KeyCode::Char('c') {
            Some(row)
        } else {
            pre.clipboard
        })
        &&& post.selected_voice == (if key.code == KeyCode::Up {
            if v == 0 { 0 } else { (v - 1) as usize }
        } else if key.code == KeyCode::Down {
            if v + 1 < 15 { (v + 1) as usize } else { 15 }
        } else {
            v
        })
        &&& post.selected_step == (if key.code == KeyCode::Left {
            if s == 0 { 0 } else { (s - 1) as usize }
        } else if key.code == KeyCode::Right {
            if s + 1 < max_step { (s + 1) as usize } else { max_step as usize }
        } else {
            s
        })
        &&& post.editing_global == (key.code == KeyCode::Tab)
        &&& post.global_param == (if key.code == KeyCode::Tab { 0 } else { pre.global_param })
        &&& r == (if key.code == KeyCode::Char(' ') {
            SeqAction::SetStepEnabled { voice: v, step: s, enabled: !step_enabled }
        } else if key.code == KeyCode::Char('p') {
            SeqAction::TogglePlay
        } else if key.code == KeyCode::Char('r') {
            SeqAction::Stop
        } else if key.code == KeyCode::Char('+') || key.code == KeyCode::Char('=') {
            SeqAction::SetStepNote {
                voice: v,
                step: s,
                midi_note: spec_clamp(step_note + delta, 0, 127) as u8,
            }
        } else if key.code == KeyCode::Char('-') {
            SeqAction::SetStepNote {
                voice: v,
                step: s,
                midi_note: spec_clamp(step_note - delta, 0, 127) as u8,
            }
        } else if key.code == KeyCode::Char('v') && pre.clipboard is Some {
            SeqAction::PasteRow { voice: v }
        } else if key.code == KeyCode::Char('z') {
            SeqAction::ClearRow { voice: v }
        } else if key.code == KeyCode::Char('Z') {
            SeqAction::ClearAll
        } else {
            SeqAction::Nothing
        })
    }

    /// Handle a key press on the sequencer page; returns what it asks of the
    /// synth. `step_note` and `step_enabled` describe the step under the
    /// cursor and `row` holds the steps of the voice under the cursor.
    pub fn handle_key(
        &mut self,
        key: KeyPress,
        step_count: usize,
        step_note: u8,
        step_enabled: bool,
        row: [S; 16],
    ) -> (r: SeqAction)
        requires
            old(self).wf(),
            step_count <= 16,
        ensures
            final(self).wf(),
            old(self).editing_global ==> Self::spec_global_key(
                *old(self),
                key,
                step_count,
                *final(self),
                r,
            ),
            !old(self).editing_global ==> Self::spec_grid_key(
                *old(self),
                key,
                step_count,
                step_note,
                step_enabled,
                row,
                *final(self),
                r,
            ),
    {
        if self.editing_global {
            return match key.code {
                KeyCode::Tab | KeyCode::Esc => {
                    self.editing_global = false;
                    SeqAction::Nothing
                },
                KeyCode::Up => {
                    if self.global_param > 0 {
                        self.global_param = self.global_param - 1;
                    }
                    SeqAction::Nothing
                },
                KeyCode::Down => {
                    self.global_param = if self.global_param + 1 < 2 {
                        self.global_param + 1
                    } else {
                        2
                    };
                    SeqAction::Nothing
                },
                KeyCode::Left | KeyCode::Right => {
                    let dir: i32 = if key.code == KeyCode::Right { 1 } else { -1 };
                    let fine = key.shift;
                    if self.global_param == 0 {
                        SeqAction::AdjustBpm { dir, fine }
                    } else if self.global_param == 1 {
                        let new_count: i64 = step_count as i64 + dir as i64;
                        let count = if new_count < 1 {
                            1
                        } else if new_count > 16 {
                            16
                        } else {
                            new_count as usize
                        };
                        SeqAction::SetStepCount { count }
                    } else {
                        SeqAction::AdjustSwing { dir, fine }
                    }
                },
                _ => SeqAction::Nothing,
            };
        }
        let v = self.selected_voice;
        let s = self.selected_step;
        let delta: i16 = if key.shift { 12 } else { 1 };
        match key.code {
            KeyCode::Up => {
                if v > 0 {
                    self.selected_voice = v - 1;
                }
                SeqAction::Nothing
            },
            KeyCode::Down => {
                self.selected_voice = if v + 1 < 15 { v + 1 } else { 15 };
                SeqAction::Nothing
            },
            KeyCode::Left => {
                if s > 0 {
                    self.selected_step = s - 1;
                }
                SeqAction::Nothing
            },
            KeyCode::Right => {
                let max_step = if step_count == 0 { 0 } else { step_count - 1 };
                self.selected_step = if s + 1 < max_step { s + 1 } else { max_step };
                SeqAction::Nothing
            },
            KeyCode::Char(' ') => SeqAction::SetStepEnabled { voice: v, step: s, enabled: !step_enabled },
            KeyCode::Char('p') => SeqAction::TogglePlay,
            KeyCode::Char('r') => SeqAction::Stop,
            KeyCode::Char('+') | KeyCode::Char('=') => {
                let n: i16 = step_note as i16 + delta;
                let midi_note: u8 = if n > 127 { 127 } else { n as u8 };
                SeqAction::SetStepNote { voice: v, step: s, midi_note }
            },
            KeyCode::Char('-') => {
                let n: i16 = step_note as i16 - delta;
                let midi_note: u8 = if n < 0 { 0 } else if n > 127 { 127 } else { n as u8 };
                SeqAction::SetStepNote { voice: v, step: s, midi_note }
            },
            KeyCode::Char('c') => {
                self.clipboard = Some(row);
                SeqAction::Nothing
            },
            KeyCode::Char('v') => if self.clipboard.is_some() {
                SeqAction::PasteRow { voice: v }
            } else {
                SeqAction::Nothing
            },
            KeyCode::Char('z') => SeqAction::ClearRow { voice: v },
            KeyCode::Char('Z') => SeqAction::ClearAll,
            KeyCode::Tab => {
                self.editing_global = true;
                self.global_param = 0;
                SeqAction::Nothing
            },
            _ => SeqAction::Nothing,
        }
    }
}

/// Copying a voice's row and then pasting, on the same or another voice,
/// pastes the copied row: the clipboard holds it and the paste names the
/// voice under the cursor.
pub proof fn lemma_copy_then_paste<S>(
    pre: SequencerPanel<S>,
    copy_key: KeyPress,
    step_count: usize,
    step_note: u8,
    step_enabled: bool,
    row: [S; 16],
    copied: SequencerPanel<S>,
    r1: SeqAction,
    moved: SequencerPanel<S>,
    paste_key: KeyPress,
    step_count2: usize,
    step_note2: u8,
    step_enabled2: bool,
    row2: [S; 16],
    post: SequencerPanel<S>,
    r2: SeqAction,
)
    requires
        !pre.editing_global,
        copy_key.code == KeyCode::Char('c'),
        SequencerPanel::spec_grid_key(pre, copy_key, step_count, step_note, step_enabled, row, copied, r1),
        moved.clipboard == copied.clipboard,
        !moved.editing_global,
        paste_key.code == KeyCode::Char('v'),
        SequencerPanel::spec_grid_key(moved, paste_key, step_count2, step_note2, step_enabled2, row2, post, r2),
    ensures
        r1 == SeqAction::Nothing,
        copied.clipboard == Some(row),
        r2 == (SeqAction::PasteRow { voice: moved.selected_voice }),
        post.clipboard == Some(row),
{
}

/// Space on the same step twice, with the step's flag updated in between,
/// switches it back: the second press asks for the flag the step had first.
pub proof fn lemma_toggle_twice<S>(
    pre: SequencerPanel<S>,
    key: KeyPress,
    step_count: usize,
    step_note: u8,
    enabled: bool,
    row: [S; 16],
    mid: SequencerPanel<S>,
    r1: SeqAction,
    post: SequencerPanel<S>,
    r2: SeqAction,
)
    requires
        !pre.editing_global,
        key.code == KeyCode::Char(' '),
        SequencerPanel::spec_grid_key(pre, key, step_count, step_note, enabled, row, mid, r1),
        r1 matches SeqAction::SetStepEnabled { enabled: now, .. } && SequencerPanel::spec_grid_key(
            mid,
            key,
            step_count,
            step_note,
            now,
            row,
            post,
            r2,
        ),
    ensures
        r1 == (SeqAction::SetStepEnabled {
            voice: pre.selected_voice,
            step: pre.selected_step,
            enabled: !enabled,
        }),
        r2 == (SeqAction::SetStepEnabled {
            voice: pre.selected_voice,
            step: pre.selected_step,
            enabled,
        }),
        mid == pre,
{
}

/// `+` (or `=`) and `-` move the note of the step under the cursor by the
/// same amount in opposite directions: a semitone, or an octave with Shift,
/// stopping at 0 and 127. Away from those ends, `+` followed by `-` gives
/// the note back.
pub proof fn lemma_note_keys<S>(
    pre: SequencerPanel<S>,
    key: KeyPress,
    step_count: usize,
    step_note: u8,
    step_enabled: bool,
    row: [S; 16],
    post: SequencerPanel<S>,
    r: SeqAction,
)
    requires
        !pre.editing_global,
        key.code == KeyCode::Char('+') || key.code == KeyCode::Char('=') || key.code
            == KeyCode::Char('-'),
        SequencerPanel::spec_grid_key(pre, key, step_count, step_note, step_enabled, row, post, r),
    ensures
        ({
            let step: int = if key.shift { 12 } else { 1 };
            let wanted: int = if key.code == KeyCode::Char('-') {
                step_note - step
            } else {
                step_note + step
            };
            r == (SeqAction::SetStepNote {
                voice: pre.selected_voice,
                step: pre.selected_step,
                midi_note: (if wanted < 0 { 0 } else if wanted > 127 { 127 } else { wanted }) as u8,
            })
        }),
        post.selected_voice == pre.selected_voice,
        post.selected_step == pre.selected_step,
        post.clipboard == pre.clipboard,
{
}

/// Raising a step's note with `+` and lowering it again with `-` (with or
/// without Shift on both) restores the note, when the raised note stays
/// within 127.
pub proof fn lemma_note_up_then_down<S>(
    pre: SequencerPanel<S>,
    up: KeyPress,
    down: KeyPress,
    step_count: usize,
    note: u8,
    enabled: bool,
    row: [S; 16],
    mid: SequencerPanel<S>,
    r1: SeqAction,
    post: SequencerPanel<S>,
    r2: SeqAction,
)
    requires
        !pre.editing_global,
        up.code == KeyCode::Char('+'),
        down.code == KeyCode::Char('-'),
        up.shift == down.shift,
        note + (if up.shift { 12int } else { 1int }) <= 127,
        SequencerPanel::spec_grid_key(pre, up, step_count, note, enabled, row, mid, r1),
        r1 matches SeqAction::SetStepNote { midi_note: raised, .. } && SequencerPanel::spec_grid_key(
            mid,
            down,
            step_count,
            raised,
            enabled,
            row,
            post,
            r2,
        ),
    ensures
        r2 == (SeqAction::SetStepNote {
            voice: pre.selected_voice,
            step: pre.selected_step,
            midi_note: note,
        }),
{
}

} // verus!
