//! Navigation decisions of the send matrix: 16 voices by 4 effect groups.

use vstd::prelude::*;

use crate::keys::{KeyCode, KeyPress};

verus! {

/// Cursor of the send matrix. `C` is what the clipboard holds for a row.
pub struct RoutingPanel<C> {
    pub selected_voice: usize,
    pub selected_group: usize,
    pub clipboard: Option<C>,
}

/// What a key press on the send matrix asks of the synth.
#[derive(Debug, Clone, Copy, PartialEq, Eq, Structural)]
pub enum RoutingAction {
    Nothing,
    /// Change a send level by one step in direction `dir` (0.01 when
    /// `fine`, else 0.1), within 0 and 1.
    AdjustSend { voice: usize, group: usize, dir: i32, fine: bool },
    /// Set a send level to 0 when it is on, and to 1 when it is off.
    ToggleSend { voice: usize, group: usize },
    /// Give a voice the clipboard's four send levels.
    PasteRow { voice: usize },
    /// Set all four of a voice's send levels to 0.
    ZeroRow { voice: usize },
}

impl<C> RoutingPanel<C> {
    /// The cursor is on one of the 16 voices and one of the 4 groups.
    pub open spec fn wf(&self) -> bool {
        self.selected_voice < 16 && self.selected_group < 4
    }

    pub fn new() -> (p: Self)
        ensures
            p.selected_voice == 0,
            p.selected_group == 0,
            p.clipboard is None,
    {
        RoutingPanel { selected_voice: 0, selected_group: 0, clipboard: None }
    }

    /// Up/Down move between voices, Tab or `]` to the next group and `[` to
    /// the previous one (both wrapping), Left/Right adjust the send, Enter
    /// toggles it, `c` keeps `row` (the cursor voice's send levels) in the
    /// clipboard, `p` pastes the clipboard over the voice's row and `z`
    /// zeroes it.
    pub open spec fn spec_handled(pre: Self, key: KeyPress, row: C, post: Self, r: RoutingAction) -> bool {
        let v = pre.selected_voice;
        let g = pre.selected_group;
        &&& post.clipboard == (if key.code == KeyCode::Char('c') {
            Some(row)
        } else {
            pre.clipboard
        })
        &&& post.selected_voice == (if key.code == KeyCode::Up {
            if v == 0 { 0 } else { (v - 1) as usize }
        } else if key.code == KeyCode::Down {
            if v + 1 < 15 { (v + 1) as usize } else { 15 }
        } else {
            v
        })
        &&& post.selected_group == (if key.code == KeyCode::Tab || key.code == KeyCode::Char(']') {
            ((g + 1) % 4) as usize
        } else if key.code == KeyCode::Char('[') {
            if g == 0 { 3 } else { (g - 1) as usize }
        } else {
            g
        })
        &&& r == (if key.code == KeyCode::Left || key.code == KeyCode::Right {
            RoutingAction::AdjustSend {
                voice: v,
                group: g,
                dir: if key.code == KeyCode::Left { -1i32 } else { 1i32 },
                fine: key.shift,
            }
        } else if key.code == KeyCode::Enter {
            RoutingAction::ToggleSend { voice: v, group: g }
        } else if key.code == KeyCode::Char('p') && pre.clipboard is Some {
            RoutingAction::PasteRow { voice: v }
        } else if key.code == KeyCode::Char('z') {
            RoutingAction::ZeroRow { voice: v }
        } else {
            RoutingAction::Nothing
        })
    }

    /// Handle a key press on the send matrix; `row` holds the send levels of
    /// the voice under the cursor.
    pub fn handle_key(&mut self, key: KeyPress, row: C) -> (r: RoutingAction)
        requires
            old(self).wf(),
        ensures
            final(self).wf(),
            Self::spec_handled(*old(self), key, row, *final(self), r),
    {
        let v = self.selected_voice;
        let g = self.selected_group;
        match key.code {
            KeyCode::Up => {
                if v > 0 {
                    self.selected_voice = v - 1;
                }
                RoutingAction::Nothing
            },
            KeyCode::Down => {
                self.selected_voice = if v + 1 < 15 { v + 1 } else { 15 };
                RoutingAction::Nothing
            },
            KeyCode::Tab | KeyCode::Char(']') => {
                self.selected_group = (g + 1) % 4;
                RoutingAction::Nothing
            },
            KeyCode::Char('[') => {
                self.selected_group = if g == 0 { 3 } else { g - 1 };
                RoutingAction::Nothing
            },
            KeyCode::Left => RoutingAction::AdjustSend { voice: v, group: g, dir: -1, fine: key.shift },
            KeyCode::Right => RoutingAction::AdjustSend { voice: v, group: g, dir: 1, fine: key.shift },
            KeyCode::Enter => RoutingAction::ToggleSend { voice: v, group: g },
            KeyCode::Char('c') => {
                self.clipboard = Some(row);
                RoutingAction::Nothing
            },
            KeyCode::Char('p') => if self.clipboard.is_some() {
                RoutingAction::PasteRow { voice: v }
            } else {
                RoutingAction::Nothing
            },
            KeyCode::Char('z') => RoutingAction::ZeroRow { voice: v },
            _ => RoutingAction::Nothing,
        }
    }
}

/// `]` and `[` step through the four groups in opposite directions: one
/// undoes the other, and four steps either way come back to the start.
pub proof fn lemma_group_cycle(g: int)
    requires
        0 <= g < 4,
    ensures
        ({
            let next = (g + 1) % 4;
            (if next == 0 { 3 } else { next - 1 }) == g
        }),
        ((((g + 1) % 4 + 1) % 4 + 1) % 4 + 1) % 4 == g,
{
}

/// Copying a voice's send levels and then pasting, on the same or another
/// voice, pastes the copied levels: the clipboard holds them and the paste
/// names the voice under the cursor.
pub proof fn lemma_copy_then_paste<C>(
    pre: RoutingPanel<C>,
    copy_key: KeyPress,
    row: C,
    copied: RoutingPanel<C>,
    r1: RoutingAction,
    moved: RoutingPanel<C>,
    paste_key: KeyPress,
    row2: C,
    post: RoutingPanel<C>,
    r2: RoutingAction,
)
    requires
        copy_key.code == KeyCode::Char('c'),
        RoutingPanel::spec_handled(pre, copy_key, row, copied, r1),
        moved.clipboard == copied.clipboard,
        paste_key.code == KeyCode::Char('p'),
        RoutingPanel::spec_handled(moved, paste_key, row2, post, r2),
    ensures
        r1 == RoutingAction::Nothing,
        copied.clipboard == Some(row),
        r2 == (RoutingAction::PasteRow { voice: moved.selected_voice }),
        post.clipboard == Some(row),
{
}

} // verus!
