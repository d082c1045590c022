//! The settings.

use crate::hotkeys;
use crate::hotkeys::HotkeyAction;
use crate::macos::keyboard::{Edit, State as KeyboardState, StateView as KeyboardStateView};
use crate::macos::popover::{Press, PressView};
use crate::macos::updates;
use crate::macos::{Action, ActionView};
use vstd::prelude::*;

verus! {

/// The shortcut of one action.
#[derive(Debug)]
pub struct ShortcutRow {
    pub action: HotkeyAction,
    pub title: String,
    pub record_enabled: bool,
    pub clear_enabled: bool,
}

/// The contents of a [`ShortcutRow`].
#[verifier::ext_equal]
pub struct ShortcutRowView {
    pub action: HotkeyAction,
    pub title: Seq<char>,
    pub record_enabled: bool,
    pub clear_enabled: bool,
}

impl View for ShortcutRow {
    type V = ShortcutRowView;

    open spec fn view(&self) -> ShortcutRowView {
        ShortcutRowView {
            action: self.action,
            title: self.title@,
            record_enabled: self.record_enabled,
            clear_enabled: self.clear_enabled,
        }
    }
}

impl DeepView for ShortcutRow {
    type V = ShortcutRowView;

    open spec fn deep_view(&self) -> ShortcutRowView {
        self@
    }
}

/// The panel of the settings.
#[derive(Debug)]
pub struct SettingsEditor {
    /// What the version is.
    pub heading: String,
    pub rows: Vec<ShortcutRow>,
    pub reset_enabled: bool,
    pub message: String,
    /// Whether the message is an error.
    pub failed: bool,
    pub checks_enabled: bool,
    pub checks: bool,
    pub downloads_enabled: bool,
    pub downloads: bool,
    pub updates_message: String,
}

/// The contents of a [`SettingsEditor`].
#[verifier::ext_equal]
pub struct SettingsEditorView {
    pub heading: Seq<char>,
    pub rows: Seq<ShortcutRowView>,
    pub reset_enabled: bool,
    pub message: Seq<char>,
    pub failed: bool,
    pub checks_enabled: bool,
    pub checks: bool,
    pub downloads_enabled: bool,
    pub downloads: bool,
    pub updates_message: Seq<char>,
}

impl View for SettingsEditor {
    type V = SettingsEditorView;

    open spec fn view(&self) -> SettingsEditorView {
        SettingsEditorView {
            heading: self.heading@,
            rows: self.rows.deep_view(),
            reset_enabled: self.reset_enabled,
            message: self.message@,
            failed: self.failed,
            checks_enabled: self.checks_enabled,
            checks: self.checks,
            downloads_enabled: self.downloads_enabled,
            downloads: self.downloads,
            updates_message: self.updates_message@,
        }
    }
}

impl DeepView for SettingsEditor {
    type V = SettingsEditorView;

    open spec fn deep_view(&self) -> SettingsEditorView {
        self@
    }
}

/// What the button of a shortcut shows.
pub open spec fn shortcut_title(state: KeyboardStateView, action: HotkeyAction) -> Seq<char> {
    if state.recording == Some(action) {
        "Press shortcut…"@
    } else {
        match hotkeys::binding_of(state.preferences, action) {
            Some(binding) => binding.shown(),
            None => "Not set"@,
        }
    }
}

/// The shortcut of an action.
pub open spec fn shortcut_row(state: KeyboardStateView, action: HotkeyAction) -> ShortcutRowView {
    ShortcutRowView {
        action,
        title: shortcut_title(state, action),
        record_enabled: state.ready && !state.pending,
        clear_enabled: state.ready && !state.pending && hotkeys::binding_of(state.preferences, action) is Some,
    }
}

/// What is said of shortcuts.
pub open spec fn shortcut_message(state: KeyboardStateView) -> Seq<char> {
    match state.error {
        Some(message) => message,
        None => if state.pending {
            "Saving…"@
        } else if !state.ready {
            "Loading settings…"@
        } else {
            "Changes save and apply automatically."@
        },
    }
}

impl SettingsEditorView {
    /// The settings when they are opened.
    pub open spec fn initial(heading: Seq<char>) -> SettingsEditorView {
        SettingsEditorView {
            heading,
            rows: hotkeys::all_actions().map_values(
                |action: HotkeyAction|
                    ShortcutRowView { action, title: Seq::empty(), record_enabled: true, clear_enabled: true },
            ),
            reset_enabled: true,
            message: Seq::empty(),
            failed: false,
            checks_enabled: true,
            checks: false,
            downloads_enabled: true,
            downloads: false,
            updates_message: Seq::empty(),
        }
    }

    /// The settings after something has changed.
    pub open spec fn updated(self, state: KeyboardStateView, updates: updates::StateView) -> SettingsEditorView {
        SettingsEditorView {
            heading: self.heading,
            rows: hotkeys::all_actions().map_values(|action: HotkeyAction| shortcut_row(state, action)),
            reset_enabled: state.ready && !state.pending,
            message: shortcut_message(state),
            failed: state.error is Some,
            checks_enabled: updates.enabled,
            checks: updates.checks,
            downloads_enabled: updates.enabled && updates.checks,
            downloads: updates.downloads,
            updates_message: if updates.message.len() == 0 {
                "Updates install on quit. Use Actions to check or install and relaunch now."@
            } else {
                updates.message
            },
        }
    }
}

impl ShortcutRow {
    /// What records a shortcut.
    pub fn record(&self) -> (r: Press)
        ensures
            r@ == PressView::HotkeyEdit(Edit::Record(self@.action)),
    {
        Press::HotkeyEdit(Edit::Record(self.action))
    }

    /// What clears a shortcut.
    pub fn clear(&self) -> (r: Press)
        ensures
            r@ == PressView::HotkeyEdit(Edit::Clear(self@.action)),
    {
        Press::HotkeyEdit(Edit::Clear(self.action))
    }
}

impl SettingsEditor {
    /// The settings when they are opened.
    pub fn new(heading: String) -> (r: Self)
        ensures
            r@ == SettingsEditorView::initial(heading@),
    {
        let all = HotkeyAction::ALL;
        let mut rows: Vec<ShortcutRow> = Vec::new();
        let mut i: usize = 0;
        while i < 8
            invariant
                i <= 8,
                all@ == hotkeys::all_actions(),
                rows@.len() == i,
                forall|k: int|
                    0 <= k < i ==> (#[trigger] rows@[k])@ == (ShortcutRowView {
                        action: hotkeys::all_actions()[k],
                        title: Seq::empty(),
                        record_enabled: true,
                        clear_enabled: true,
                    }),
            decreases 8 - i,
        {
            rows.push(
                ShortcutRow { action: all[i], title: String::new(), record_enabled: true, clear_enabled: true },
            );
            i += 1;
        }
        assert(rows.deep_view() =~= SettingsEditorView::initial(heading@).rows);
        SettingsEditor {
            heading,
            rows,
            reset_enabled: true,
            message: String::new(),
            failed: false,
            checks_enabled: true,
            checks: false,
            downloads_enabled: true,
            downloads: false,
            updates_message: String::new(),
        }
    }

    /// Something has changed.
    pub fn update(&mut self, state: &KeyboardState, updates: &updates::State)
        ensures
            final(self)@ == old(self)@.updated(state@, updates@),
    {
        self.checks_enabled = updates.enabled;
        self.downloads_enabled = updates.enabled && updates.checks;
        self.checks = updates.checks;
        self.downloads = updates.downloads;
        self.updates_message = if updates.message.as_str().is_empty() {
            "Updates install on quit. Use Actions to check or install and relaunch now.".to_owned()
        } else {
            updates.message.clone()
        };
        let all = HotkeyAction::ALL;
        let mut rows: Vec<ShortcutRow> = Vec::new();
        let mut i: usize = 0;
        while i < 8
            invariant
                i <= 8,
                all@ == hotkeys::all_actions(),
                rows@.len() == i,
                forall|k: int| 0 <= k < i ==> (#[trigger] rows@[k])@ == shortcut_row(state@, hotkeys::all_actions()[k]),
            decreases 8 - i,
        {
            let action = all[i];
            let binding = state.preferences.binding(action);
            let recording = match state.recording {
                Some(recorded) => recorded == action,
                None => false,
            };
            let set = binding.is_some();
            let title = if recording {
                "Press shortcut…".to_owned()
            } else {
                match &binding {
                    Some(binding) => binding.display(),
                    None => "Not set".to_owned(),
                }
            };
            rows.push(
                ShortcutRow {
                    action,
                    title,
                    record_enabled: state.ready && !state.pending,
                    clear_enabled: state.ready && !state.pending && set,
                },
            );
            i += 1;
        }
        assert(rows.deep_view() =~= hotkeys::all_actions().map_values(
            |action: HotkeyAction| shortcut_row(state@, action),
        ));
        self.rows = rows;
        self.reset_enabled = state.ready && !state.pending;
        self.message = match &state.error {
            Some(message) => message.clone(),
            None => if state.pending {
                "Saving…".to_owned()
            } else if !state.ready {
                "Loading settings…".to_owned()
            } else {
                "Changes save and apply automatically.".to_owned()
            },
        };
        self.failed = state.error.is_some();
    }

    /// What restores the shortcuts that there were at first.
    pub fn reset(&self) -> (r: Press)
        ensures
            r@ == PressView::HotkeyEdit(Edit::Reset),
    {
        Press::HotkeyEdit(Edit::Reset)
    }

    /// What opens the configuration file.
    pub fn file(&self) -> (r: Press)
        ensures
            r@ == PressView::PopoverAction(ActionView::ConfigFile),
    {
        Press::PopoverAction(Action::ConfigFile)
    }
}

} // verus!
