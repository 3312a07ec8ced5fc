//! The pages of the terminal UI and the keys that every page shares.

use vstd::prelude::*;

use crate::keys::{KeyCode, KeyPress};

verus! {

/// Page of the terminal UI.
#[derive(Debug, Clone, Copy, PartialEq, Eq, Structural)]
pub enum UIMode {
    Voices,
    FxGroups,
    Sequencer,
}

impl UIMode {
    pub open spec fn spec_tab_label(self) -> Seq<char> {
        match self {
            UIMode::Voices => "1:VOICES"@,
            UIMode::FxGroups => "2:FX GROUPS"@,
            UIMode::Sequencer => "3:SEQUENCER"@,
        }
    }

    /// Label of the page's tab: its number key and its name.
    pub fn tab_label(&self) -> (r: &'static str)
        ensures
            r@ == self.spec_tab_label(),
    {
        match self {
            UIMode::Voices => "1:VOICES",
            UIMode::FxGroups => "2:FX GROUPS",
            UIMode::Sequencer => "3:SEQUENCER",
        }
    }
}

/// What the application does with a key press before any page sees it.
#[derive(Debug, Clone, Copy, PartialEq, Eq, Structural)]
pub enum AppAction {
    /// The effect picker is open and takes the key.
    PickerKey,
    Quit,
    SavePreset,
    LoadPreset,
    SwitchMode(UIMode),
    /// The current page handles the key.
    PageKey,
}

/// The application's decision on a key press: an open effect picker takes
/// every key; otherwise `q` quits, Ctrl+S saves and Ctrl+L loads the
/// preset, `1`/`2`/`3` switch pages, and every other key goes to the page.
pub open spec fn spec_app_key_action(mode: UIMode, picker_open: bool, key: KeyPress) -> AppAction {
    if mode == UIMode::FxGroups && picker_open {
        AppAction::PickerKey
    } else if key.code == KeyCode::Char('q') {
        AppAction::Quit
    } else if key.ctrl && key.code == KeyCode::Char('s') {
        AppAction::SavePreset
    } else if key.ctrl && key.code == KeyCode::Char('l') {
        AppAction::LoadPreset
    } else if key.code == KeyCode::Char('1') {
        AppAction::SwitchMode(UIMode::Voices)
    } else if key.code == KeyCode::Char('2') {
        AppAction::SwitchMode(UIMode::FxGroups)
    } else if key.code == KeyCode::Char('3') {
        AppAction::SwitchMode(UIMode::Sequencer)
    } else {
        AppAction::PageKey
    }
}

pub fn app_key_action(mode: UIMode, picker_open: bool, key: KeyPress) -> (r: AppAction)
    ensures
        r == spec_app_key_action(mode, picker_open, key),
{
    // The picker intercepts all keys when open
    if mode == UIMode::FxGroups && picker_open {
        return AppAction::PickerKey;
    }
    if key.code == KeyCode::Char('q') {
        return AppAction::Quit;
    }
    if key.ctrl && key.code == KeyCode::Char('s') {
        return AppAction::SavePreset;
    }
    if key.ctrl && key.code == KeyCode::Char('l') {
        return AppAction::LoadPreset;
    }
    // 1/2/3 always switch pages
    match key.code {
        KeyCode::Char('1') => AppAction::SwitchMode(UIMode::Voices),
        KeyCode::Char('2') => AppAction::SwitchMode(UIMode::FxGroups),
        KeyCode::Char('3') => AppAction::SwitchMode(UIMode::Sequencer),
        _ => AppAction::PageKey,
    }
}

} // verus!
