//! Navigation decisions of the effect-group page: four groups of effects,
//! an editor for the selected effect's parameters, and a picker to add one.

use vstd::prelude::*;

use crate::keys::{KeyCode, KeyPress};
use crate::messages::EffectType;

verus! {

/// Cursor of the effect-group page.
#[derive(Debug, Clone, Copy, PartialEq, Eq, Structural)]
pub struct FxGroupPanel {
    pub selected_group: usize,
    pub selected_effect: usize,
    pub selected_param: usize,
    pub show_picker: bool,
    pub picker_selection: usize,
    /// Whether we are in param-edit mode (Enter toggles; Up/Down pick a
    /// param, Left/Right adjust it).
    pub editing: bool,
}

/// What a key press on the effect-group page asks of the synth.
#[derive(Debug, Clone, Copy, PartialEq, Eq, Structural)]
pub enum FxAction {
    Nothing,
    /// Step parameter `param` of effect `effect` in `group` one step in
    /// direction `dir` (a small step when `fine`).
    AdjustParam { group: usize, effect: usize, param: usize, dir: i32, fine: bool },
    /// Switch the group on or off.
    ToggleGroup { group: usize },
    RemoveEffect { group: usize, position: usize },
    AddEffect { group: usize, effect_type: EffectType, position: usize },
}

/// The effect types the picker offers, in its order.
pub open spec fn spec_all_effects() -> Seq<EffectType> {
    seq![
        EffectType::Gain,
        EffectType::Bitcrusher,
        EffectType::Distortion,
        EffectType::Limiter,
        EffectType::Delay,
        EffectType::Reverb,
        EffectType::Tremolo,
        EffectType::Chorus,
        EffectType::Phaser,
        EffectType::Vibrato,
        EffectType::Lowpass,
        EffectType::Highpass,
        EffectType::Bandpass,
        EffectType::Eq3,
        EffectType::Compressor,
        EffectType::WhiteNoise,
    ]
}

/// The effect types the picker offers, in its order.
pub fn all_effects() -> (r: &'static [EffectType])
    ensures
        r@ == spec_all_effects(),
{
    &[
        EffectType::Gain,
        EffectType::Bitcrusher,
        EffectType::Distortion,
        EffectType::Limiter,
        EffectType::Delay,
        EffectType::Reverb,
        EffectType::Tremolo,
        EffectType::Chorus,
        EffectType::Phaser,
        EffectType::Vibrato,
        EffectType::Lowpass,
        EffectType::Highpass,
        EffectType::Bandpass,
        EffectType::Eq3,
        EffectType::Compressor,
        EffectType::WhiteNoise,
    ]
}

impl FxGroupPanel {
    /// The cursor names one of the 4 groups and one of the 16 picker entries.
    pub open spec fn wf(&self) -> bool {
        self.selected_group < 4 && self.picker_selection < 16
    }

    pub fn new() -> (p: Self)
        ensures
            p == (FxGroupPanel {
                selected_group: 0,
                selected_effect: 0,
                selected_param: 0,
                show_picker: false,
                picker_selection: 0,
                editing: false,
            }),
    {
        FxGroupPanel {
            selected_group: 0,
            selected_effect: 0,
            selected_param: 0,
            show_picker: false,
            picker_selection: 0,
            editing: false,
        }
    }

    pub open spec fn spec_picker_selected_effect(&self) -> EffectType {
        spec_all_effects()[if self.picker_selection < 16 { self.picker_selection as int } else { 15 }]
    }

    /// Returns the effect type the picker currently has selected (for use
    /// when Enter is pressed).
    pub fn picker_selected_effect(&self) -> (r: EffectType)
        ensures
            r == self.spec_picker_selected_effect(),
    {
        let all = all_effects();
        let i = if self.picker_selection < all.len() - 1 {
            self.picker_selection
        } else {
            all.len() - 1
        };
        all[i]
    }

    /// A key press while the effect picker is open: Up/Down move through
    /// the effects, Enter appends the selected one to the selected group and
    /// selects it, Esc or `q` close the picker. `count` is the number of
    /// effects in the selected group.
    pub open spec fn spec_picker_key(pre: Self, key: KeyPress, count: usize) -> (Self, FxAction) {
        if key.code == KeyCode::Up {
            (
                FxGroupPanel {
                    picker_selection: if pre.picker_selection == 0 {
                        0
                    } else {
                        (pre.picker_selection - 1) as usize
                    },
                    ..pre
                },
                FxAction::Nothing,
            )
        } else if key.code == KeyCode::Down {
            (
                FxGroupPanel {
                    picker_selection: if pre.picker_selection + 1 < 15 {
                        (pre.picker_selection + 1) as usize
                    } else {
                        15
                    },
                    ..pre
                },
                FxAction::Nothing,
            )
        } else if key.code == KeyCode::Enter {
            (
                FxGroupPanel {
                    selected_effect: count,
                    selected_param: 0,
                    show_picker: false,
                    ..pre
                },
                FxAction::AddEffect {
                    group: pre.selected_group,
                    effect_type: pre.spec_picker_selected_effect(),
                    position: count,
                },
            )
        } else if key.code == KeyCode::Esc || key.code == KeyCode::Char('q') {
            (FxGroupPanel { show_picker: false, ..pre }, FxAction::Nothing)
        } else {
            (pre, FxAction::Nothing)
        }
    }

    pub fn handle_picker_key(&mut self, key: KeyPress, count: usize) -> (r: FxAction)
        ensures
            old(self).wf() ==> final(self).wf(),
            (*final(self), r) == Self::spec_picker_key(*old(self), key, count),
    {
        match key.code {
            KeyCode::Up => {
                if self.picker_selection > 0 {
                    self.picker_selection = self.picker_selection - 1;
                }
                FxAction::Nothing
            },
            KeyCode::Down => {
                // 16 effects
                self.picker_selection = if self.picker_selection < 14 {
                    self.picker_selection + 1
                } else {
                    15
                };
                FxAction::Nothing
            },
            KeyCode::Enter => {
                let effect_type = self.picker_selected_effect();
                let group = self.selected_group;
                // Move selection to the newly added effect
                self.selected_effect = count;
                self.selected_param = 0;
                self.show_picker = false;
                FxAction::AddEffect { group, effect_type, position: count }
            },
            KeyCode::Esc | KeyCode::Char('q') => {
                self.show_picker = false;
                FxAction::Nothing
            },
            _ => FxAction::Nothing,
        }
    }

    /// A key press on the effect-group page with the picker closed.
    /// `counts[g]` is the number of effects in group `g`; `param_count` the
    /// number of parameters of the selected effect (0 if there is none).
    ///
    /// While editing, Up/Down pick a parameter, Left/Right adjust it and
    /// Enter/Esc stop editing. Otherwise Up/Down walk through the effects of
    /// all groups in order, Enter edits an effect that has parameters, `e`
    /// switches the group on or off, `a` opens the picker and `d` deletes the
    /// selected effect of a non-empty group.
    pub open spec fn spec_fx_key(pre: Self, key: KeyPress, counts: [usize; 4], param_count: usize) -> (
        Self,
        FxAction,
    ) {
        let g = pre.selected_group;
        let e = pre.selected_effect;
        if pre.editing {
            if key.code == KeyCode::Up {
                (
                    FxGroupPanel {
                        selected_param: if pre.selected_param > 0 {
                            (pre.selected_param - 1) as usize
                        } else {
                            0
                        },
                        ..pre
                    },
                    FxAction::Nothing,
                )
            } else if key.code == KeyCode::Down {
                (
                    FxGroupPanel {
                        selected_param: if pre.selected_param + 1 < param_count {
                            (pre.selected_param + 1) as usize
                        } else {
                            pre.selected_param
                        },
                        ..pre
                    },
                    FxAction::Nothing,
                )
            } else if key.code == KeyCode::Left || key.code == KeyCode::Right {
                (
                    pre,
                    FxAction::AdjustParam {
                        group: g,
                        effect: e,
                        param: pre.selected_param,
                        dir: if key.code == KeyCode::Left { -1i32 } else { 1i32 },
                        fine: key.shift,
                    },
                )
            } else if key.code == KeyCode::Enter || key.code == KeyCode::Esc {
                (FxGroupPanel { editing: false, ..pre }, FxAction::Nothing)
            } else {
                (pre, FxAction::Nothing)
            }
        } else if key.code == KeyCode::Up {
            if e > 0 {
                (FxGroupPanel { selected_effect: (e - 1) as usize, ..pre }, FxAction::Nothing)
            } else if g > 0 {
                let prev = (g - 1) as usize;
                (
                    FxGroupPanel {
                        selected_group: prev,
                        selected_effect: if counts[prev as int] > 0 {
                            (counts[prev as int] - 1) as usize
                        } else {
                            0
                        },
                        ..pre
                    },
                    FxAction::Nothing,
                )
            } else {
                (pre, FxAction::Nothing)
            }
        } else if key.code == KeyCode::Down {
            if e + 1 < counts[g as int] {
                (FxGroupPanel { selected_effect: (e + 1) as usize, ..pre }, FxAction::Nothing)
            } else if g < 3 {
                (
                    FxGroupPanel { selected_group: (g + 1) as usize, selected_effect: 0, ..pre },
                    FxAction::Nothing,
                )
            } else {
                (pre, FxAction::Nothing)
            }
        } else if key.code == KeyCode::Enter {
            if param_count > 0 {
                (FxGroupPanel { editing: true, selected_param: 0, ..pre }, FxAction::Nothing)
            } else {
                (pre, FxAction::Nothing)
            }
        } else if key.code == KeyCode::Char('e') {
            (pre, FxAction::ToggleGroup { group: g })
        } else if key.code == KeyCode::Char('a') {
            (FxGroupPanel { show_picker: true, picker_selection: 0, ..pre }, FxAction::Nothing)
        } else if key.code == KeyCode::Char('d') {
            if counts[g as int] > 0 {
                (
                    FxGroupPanel {
                        selected_effect: if e > 0 { (e - 1) as usize } else { 0 },
                        selected_param: 0,
                        ..pre
                    },
                    FxAction::RemoveEffect { group: g, position: e },
                )
            } else {
                (pre, FxAction::Nothing)
            }
        } else {
            (pre, FxAction::Nothing)
        }
    }

    pub fn handle_fx_key(&mut self, key: KeyPress, counts: [usize; 4], param_count: usize) -> (r:
        FxAction)
        requires
            old(self).selected_group < 4,
        ensures
            final(self).selected_group < 4,
            old(self).wf() ==> final(self).wf(),
            (*final(self), r) == Self::spec_fx_key(*old(self), key, counts, param_count),
    {
        let g = self.selected_group;
        if self.editing {
            return match key.code {
                KeyCode::Up => {
                    if self.selected_param > 0 {
                        self.selected_param = self.selected_param - 1;
                    }
                    FxAction::Nothing
                },
                KeyCode::Down => {
                    if self.selected_param < param_count && self.selected_param + 1 < param_count {
                        self.selected_param = self.selected_param + 1;
                    }
                    FxAction::Nothing
                },
                KeyCode::Left => FxAction::AdjustParam {
                    group: g,
                    effect: self.selected_effect,
                    param: self.selected_param,
                    dir: -1,
                    fine: key.shift,
                },
                KeyCode::Right => FxAction::AdjustParam {
                    group: g,
                    effect: self.selected_effect,
                    param: self.selected_param,
                    dir: 1,
                    fine: key.shift,
                },
                KeyCode::Enter | KeyCode::Esc => {
                    self.editing = false;
                    FxAction::Nothing
                },
                _ => FxAction::Nothing,
            };
        }
        // Navigate mode
        match key.code {
            KeyCode::Up => {
                if self.selected_effect > 0 {
                    self.selected_effect = self.selected_effect - 1;
                } else if g > 0 {
                    self.selected_group = g - 1;
                    let prev_count = counts[g - 1];
                    self.selected_effect = if prev_count > 0 {
                        prev_count - 1
                    } else {
                        0
                    };
                }
                FxAction::Nothing
            },
            KeyCode::Down => {
                let effect_count = counts[g];
                if self.selected_effect < effect_count && self.selected_effect + 1 < effect_count {
                    self.selected_effect = self.selected_effect + 1;
                } else if g < 3 {
                    self.selected_group = g + 1;
                    self.selected_effect = 0;
                }
                FxAction::Nothing
            },
            KeyCode::Enter => {
                if param_count > 0 {
                    self.editing = true;
                    self.selected_param = 0;
                }
                FxAction::Nothing
            },
            KeyCode::Char('e') => FxAction::ToggleGroup { group: g },
            KeyCode::Char('a') => {
                self.show_picker = true;
                self.picker_selection = 0;
                FxAction::Nothing
            },
            KeyCode::Char('d') => {
                if counts[g] > 0 {
                    let position = self.selected_effect;
                    self.selected_effect = if position > 0 {
                        position - 1
                    } else {
                        0
                    };
                    self.selected_param = 0;
                    FxAction::RemoveEffect { group: g, position }
                } else {
                    FxAction::Nothing
                }
            },
            _ => FxAction::Nothing,
        }
    }
}

/// Down and then Up come back to the effect one started from, when the
/// cursor is on an existing effect and Down had somewhere to go.
pub proof fn lemma_down_then_up(pre: FxGroupPanel, counts: [usize; 4], down: KeyPress, up: KeyPress, p1: usize, p2: usize)
    requires
        pre.wf(),
        !pre.editing,
        pre.selected_effect < counts[pre.selected_group as int],
        pre.selected_group < 3 || pre.selected_effect + 1 < counts[pre.selected_group as int],
        down.code == KeyCode::Down,
        up.code == KeyCode::Up,
    ensures
        ({
            let (mid, a1) = FxGroupPanel::spec_fx_key(pre, down, counts, p1);
            let (post, a2) = FxGroupPanel::spec_fx_key(mid, up, counts, p2);
            &&& post == pre
            &&& a1 == FxAction::Nothing
            &&& a2 == FxAction::Nothing
        }),
{
}

/// The picker offers every effect type exactly once, at the type's position.
pub proof fn lemma_picker_lists_every_effect(t: EffectType)
    ensures
        spec_all_effects().len() == 16,
        spec_all_effects()[t.spec_index()] == t,
        forall|i: int| 0 <= i < 16 ==> (#[trigger] spec_all_effects()[i]).spec_index() == i,
{
}

/// Every key keeps the picker's selection on one of the 16 effects, and
/// Enter adds exactly the effect the selection shows, at the end of the
/// selected group, and selects it.
pub proof fn lemma_picker_enter_adds_selected(pre: FxGroupPanel, key: KeyPress, count: usize)
    requires
        pre.wf(),
        key.code == KeyCode::Enter,
    ensures
        ({
            let (post, action) = FxGroupPanel::spec_picker_key(pre, key, count);
            &&& post.wf()
            &&& action == (FxAction::AddEffect {
                group: pre.selected_group,
                effect_type: spec_all_effects()[pre.picker_selection as int],
                position: count,
            })
            &&& post.selected_group == pre.selected_group
            &&& post.selected_effect == count
            &&& !post.show_picker
        }),
{
}

} // verus!
