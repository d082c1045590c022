//! The keys of the inbox, and the one shortcut of the whole system.

use crate::hotkeys;
use crate::hotkeys::{Binding, BindingView, HotkeyAction};
use crate::text;
use crate::text_map::Duplicate;
use vstd::prelude::*;

verus! {

/// A change of shortcuts in the settings.
#[derive(Clone, Copy, Debug, PartialEq, Eq, Structural)]
pub enum Edit {
    Record(HotkeyAction),
    Clear(HotkeyAction),
    Reset,
}

/// A key with modifiers that is registered for the whole system.
#[derive(Clone, Copy, Debug, PartialEq, Eq, Structural)]
pub struct GlobalKey {
    pub key: u16,
    pub modifiers: u8,
}

impl DeepView for GlobalKey {
    type V = GlobalKey;

    open spec fn deep_view(&self) -> GlobalKey {
        *self
    }
}

/// What the keyboard does, and what the settings show of it.
#[derive(Debug)]
pub struct State {
    pub preferences: hotkeys::Preferences,
    /// The action for which a shortcut is recorded.
    pub recording: Option<HotkeyAction>,
    /// Whether a change is being saved.
    pub pending: bool,
    /// Whether the shortcuts were loaded.
    pub ready: bool,
    pub error: Option<String>,
    /// Whether the inbox takes shortcuts.
    pub inbox: bool,
}

/// The contents of a [`State`].
#[verifier::ext_equal]
pub struct StateView {
    pub preferences: hotkeys::PreferencesView,
    pub recording: Option<HotkeyAction>,
    pub pending: bool,
    pub ready: bool,
    pub error: Option<Seq<char>>,
    pub inbox: bool,
}

impl View for State {
    type V = StateView;

    open spec fn view(&self) -> StateView {
        StateView {
            preferences: self.preferences@,
            recording: self.recording,
            pending: self.pending,
            ready: self.ready,
            error: self.error.deep_view(),
            inbox: self.inbox,
        }
    }
}

impl DeepView for State {
    type V = StateView;

    open spec fn deep_view(&self) -> StateView {
        self@
    }
}

impl Clone for State {
    fn clone(&self) -> (r: Self)
        ensures
            r@ == self@,
    {
        State {
            preferences: self.preferences.copy(),
            recording: self.recording,
            pending: self.pending,
            ready: self.ready,
            error: text::copy_option(&self.error),
            inbox: self.inbox,
        }
    }
}

impl Duplicate for State {
    fn duplicate(&self) -> (r: State) {
        self.clone()
    }
}

/// A change that is being saved.
#[derive(Debug)]
pub struct Pending {
    pub preferences: hotkeys::Preferences,
    pub global: Option<GlobalKey>,
}

/// The contents of a [`Pending`].
#[verifier::ext_equal]
pub struct PendingView {
    pub preferences: hotkeys::PreferencesView,
    pub global: Option<GlobalKey>,
}

impl View for Pending {
    type V = PendingView;

    open spec fn view(&self) -> PendingView {
        PendingView {
            preferences: self.preferences@,
            global: self.global,
        }
    }
}

impl DeepView for Pending {
    type V = PendingView;

    open spec fn deep_view(&self) -> PendingView {
        self@
    }
}

/// What the registration of a key is waited for.
#[derive(Debug)]
pub enum Waiting {
    /// The shortcuts were loaded.
    Load(GlobalKey),
    /// The shortcuts are changed.
    Save { preferences: hotkeys::Preferences, key: GlobalKey },
}

/// The contents of [`Waiting`].
pub enum WaitingView {
    Load(GlobalKey),
    Save { preferences: hotkeys::PreferencesView, key: GlobalKey },
}

impl View for Waiting {
    type V = WaitingView;

    open spec fn view(&self) -> WaitingView {
        match self {
            Waiting::Load(key) => WaitingView::Load(*key),
            Waiting::Save { preferences, key } => WaitingView::Save { preferences: preferences@, key: *key },
        }
    }
}

impl DeepView for Waiting {
    type V = WaitingView;

    open spec fn deep_view(&self) -> WaitingView {
        self@
    }
}

/// What the keyboard asks for.
#[derive(Debug)]
pub enum KeyEffect {
    /// Registers a key for the whole system; answered at once.
    Register(GlobalKey),
    Unregister(GlobalKey),
    /// Saves shortcuts; answered when that is done.
    Save(hotkeys::Preferences),
}

/// The contents of a [`KeyEffect`].
pub enum KeyEffectView {
    Register(GlobalKey),
    Unregister(GlobalKey),
    Save(hotkeys::PreferencesView),
}

impl View for KeyEffect {
    type V = KeyEffectView;

    open spec fn view(&self) -> KeyEffectView {
        match self {
            KeyEffect::Register(key) => KeyEffectView::Register(*key),
            KeyEffect::Unregister(key) => KeyEffectView::Unregister(*key),
            KeyEffect::Save(preferences) => KeyEffectView::Save(preferences@),
        }
    }
}

impl DeepView for KeyEffect {
    type V = KeyEffectView;

    open spec fn deep_view(&self) -> KeyEffectView {
        self@
    }
}

/// The keyboard: its state, whether keys can be registered for the whole system, the key that
/// is registered, the change that is being saved, and what is asked for.
#[derive(Debug)]
pub struct Keyboard {
    /// Whether this is a development build.
    pub dev: bool,
    pub state: State,
    pub available: bool,
    pub global: Option<GlobalKey>,
    pub pending: Option<Pending>,
    pub waiting: Option<Waiting>,
    pub effects: Vec<KeyEffect>,
}

/// The contents of a [`Keyboard`].
#[verifier::ext_equal]
pub struct KeyboardView {
    pub dev: bool,
    pub state: StateView,
    pub available: bool,
    pub global: Option<GlobalKey>,
    pub pending: Option<PendingView>,
    pub waiting: Option<WaitingView>,
    pub effects: Seq<KeyEffectView>,
}

impl View for Keyboard {
    type V = KeyboardView;

    open spec fn view(&self) -> KeyboardView {
        KeyboardView {
            dev: self.dev,
            state: self.state@,
            available: self.available,
            global: self.global,
            pending: self.pending.deep_view(),
            waiting: self.waiting.deep_view(),
            effects: self.effects.deep_view(),
        }
    }
}

impl DeepView for Keyboard {
    type V = KeyboardView;

    open spec fn deep_view(&self) -> KeyboardView {
        self@
    }
}

/// A key that was pressed.
#[derive(Debug)]
pub struct KeyPress {
    pub code: u16,
    pub modifiers: u8,
    /// Whether the key is held down.
    pub repeat: bool,
    /// What the key writes without its modifiers.
    pub characters: Option<String>,
    /// Whether a menu is open, which has the keys for itself.
    pub in_menu: bool,
    /// Whether the inbox is shown, has the focus and is where the key was pressed.
    pub focused: bool,
    /// Whether a text is being written.
    pub typing: bool,
}

/// The contents of a [`KeyPress`].
#[verifier::ext_equal]
pub struct KeyPressView {
    pub code: u16,
    pub modifiers: u8,
    pub repeat: bool,
    pub characters: Option<Seq<char>>,
    pub in_menu: bool,
    pub focused: bool,
    pub typing: bool,
}

impl View for KeyPress {
    type V = KeyPressView;

    open spec fn view(&self) -> KeyPressView {
        KeyPressView {
            code: self.code,
            modifiers: self.modifiers,
            repeat: self.repeat,
            characters: self.characters.deep_view(),
            in_menu: self.in_menu,
            focused: self.focused,
            typing: self.typing,
        }
    }
}

impl DeepView for KeyPress {
    type V = KeyPressView;

    open spec fn deep_view(&self) -> KeyPressView {
        self@
    }
}

/// What becomes of a key.
#[derive(Debug)]
pub enum KeyReply {
    /// The key is left to others.
    Pass,
    Nothing,
    Refresh,
    Escape,
    Settings,
    Recorded { action: HotkeyAction, binding: Binding },
    Shortcut(HotkeyAction),
}

/// The contents of a [`KeyReply`].
pub enum KeyReplyView {
    Pass,
    Nothing,
    Refresh,
    Escape,
    Settings,
    Recorded { action: HotkeyAction, binding: BindingView },
    Shortcut(HotkeyAction),
}

impl View for KeyReply {
    type V = KeyReplyView;

    open spec fn view(&self) -> KeyReplyView {
        match self {
            KeyReply::Pass => KeyReplyView::Pass,
            KeyReply::Nothing => KeyReplyView::Nothing,
            KeyReply::Refresh => KeyReplyView::Refresh,
            KeyReply::Escape => KeyReplyView::Escape,
            KeyReply::Settings => KeyReplyView::Settings,
            KeyReply::Recorded { action, binding } => KeyReplyView::Recorded { action: *action, binding: binding@ },
            KeyReply::Shortcut(action) => KeyReplyView::Shortcut(*action),
        }
    }
}

impl DeepView for KeyReply {
    type V = KeyReplyView;

    open spec fn deep_view(&self) -> KeyReplyView {
        self@
    }
}

// ---------------------------------------------------------------- modifiers and names

/// The modifiers that are held.
pub open spec fn held(command: bool, option: bool, control: bool, shift: bool) -> int {
    (if command { hotkeys::COMMAND as int } else { 0 }) + (if option { hotkeys::OPTION as int } else { 0 }) + (if control {
        hotkeys::CONTROL as int
    } else {
        0
    }) + (if shift { hotkeys::SHIFT as int } else { 0 })
}

/// The modifiers that are held.
pub fn modifiers(command: bool, option: bool, control: bool, shift: bool) -> (r: u8)
    ensures
        r == held(command, option, control, shift),
{
    let mut value: u8 = 0;
    if command {
        value = value + hotkeys::COMMAND;
    }
    if option {
        value = value + hotkeys::OPTION;
    }
    if control {
        value = value + hotkeys::CONTROL;
    }
    if shift {
        value = value + hotkeys::SHIFT;
    }
    value
}

/// The name that a key is shown by: what it writes, where that can be shown.
pub open spec fn label_of(code: u16, characters: Option<Seq<char>>, name: Seq<char>) -> Seq<char> {
    match code {
        49 => "Space"@,
        36 => "Return"@,
        123 => "←"@,
        124 => "→"@,
        125 => "↓"@,
        126 => "↑"@,
        _ => if 96 <= code <= 122 {
            name
        } else {
            match characters {
                Some(written) => written_label(text::unicode_uppercase(written), name),
                None => name,
            }
        },
    }
}

/// A text in capitals that a key writes, where it can be shown.
pub open spec fn written_label(capitals: Seq<char>, name: Seq<char>) -> Seq<char> {
    if capitals.len() > 0 && forall|i: int| 0 <= i < capitals.len() ==> !text::control(#[trigger] capitals[i]) {
        capitals
    } else {
        name
    }
}

/// A text in capitals that a key writes, where it can be shown.
pub fn capitals_or_name(capitals: String, name: &str) -> (r: String)
    ensures
        r@ == written_label(capitals@, name@),
{
    let letters = text::chars(&capitals);
    let mut shown = letters.len() > 0;
    let mut i: usize = 0;
    while i < letters.len()
        invariant
            letters@ == capitals@,
            i <= letters@.len(),
            shown == (letters@.len() > 0 && forall|k: int| 0 <= k < i ==> !text::control(#[trigger] capitals@[k])),
        decreases letters.len() - i,
    {
        if text::is_control(letters[i]) {
            shown = false;
        }
        i += 1;
    }
    if shown {
        capitals
    } else {
        name.to_owned()
    }
}

/// The name that a key is shown by.
pub fn key_label(code: u16, characters: &Option<String>, name: &str) -> (r: String)
    ensures
        r@ == label_of(code, characters.deep_view(), name@),
{
    match code {
        49 => "Space".to_owned(),
        36 => "Return".to_owned(),
        123 => "←".to_owned(),
        124 => "→".to_owned(),
        125 => "↓".to_owned(),
        126 => "↑".to_owned(),
        _ => if 96 <= code && code <= 122 {
            name.to_owned()
        } else {
            match characters {
                Some(written) => capitals_or_name(text::uppercase(written), name),
                None => name.to_owned(),
            }
        },
    }
}

/// The key that shortcuts register for the whole system.
pub open spec fn key_of(chosen: hotkeys::PreferencesView) -> Result<Option<GlobalKey>, Seq<char>> {
    match hotkeys::binding_of(chosen, HotkeyAction::OpenGopher) {
        None => Ok(None),
        Some(binding) => if hotkeys::key_name(binding.key) is Some {
            Ok(Some(GlobalKey { key: binding.key, modifiers: binding.modifiers & 15 }))
        } else {
            Err("Unsupported shortcut key"@)
        },
    }
}

/// The key that shortcuts register for the whole system.
pub fn global_key(preferences: &hotkeys::Preferences) -> (r: Result<Option<GlobalKey>, String>)
    ensures
        match r {
            Ok(key) => key_of(preferences@) == Ok::<Option<GlobalKey>, Seq<char>>(key),
            Err(message) => key_of(preferences@) == Err::<Option<GlobalKey>, Seq<char>>(message@),
        },
{
    match preferences.binding(HotkeyAction::OpenGopher) {
        None => Ok(None),
        Some(binding) => match hotkeys::key_code_name(binding.key) {
            Some(_) => Ok(Some(GlobalKey { key: binding.key, modifiers: binding.modifiers & 15 })),
            None => Err("Unsupported shortcut key".to_owned()),
        },
    }
}

// ---------------------------------------------------------------- keys in the inbox

/// The text shown when a key cannot be used for a shortcut.
pub const UNUSABLE: &'static str =
    "Choose a letter, number, punctuation, arrow, or function key. Escape cancels.";

/// The code of the Escape key.
pub const ESCAPE: u16 = 53;

impl StateView {
    /// The state with which the keyboard starts.
    pub open spec fn blank() -> StateView {
        StateView {
            preferences: hotkeys::nothing_chosen(),
            recording: None,
            pending: false,
            ready: false,
            error: None,
            inbox: false,
        }
    }

    /// What becomes of a key while a shortcut is recorded.
    pub open spec fn recorded(self, action: HotkeyAction, press: KeyPressView) -> (StateView, KeyReplyView) {
        let stopped = StateView { recording: None, ..self };
        if press.repeat {
            (self, KeyReplyView::Nothing)
        } else if press.code == ESCAPE {
            (stopped, KeyReplyView::Refresh)
        } else {
            match hotkeys::key_name(press.code) {
                Some(name) => (
                    stopped,
                    KeyReplyView::Recorded {
                        action,
                        binding: BindingView {
                            key: press.code,
                            modifiers: press.modifiers,
                            label: label_of(press.code, press.characters, name),
                        },
                    },
                ),
                None => (StateView { error: Some(UNUSABLE@), ..stopped }, KeyReplyView::Refresh),
            }
        }
    }

    /// What becomes of a key that is neither Escape nor recorded.
    pub open spec fn performed(self, press: KeyPressView) -> KeyReplyView {
        if hotkeys::settings_shortcut(press.code, press.modifiers) {
            if press.repeat {
                KeyReplyView::Nothing
            } else {
                KeyReplyView::Settings
            }
        } else if !self.inbox || press.typing {
            KeyReplyView::Pass
        } else {
            match hotkeys::action_of(self.preferences, press.code, press.modifiers, 8) {
                None => KeyReplyView::Pass,
                Some(HotkeyAction::OpenGopher) => KeyReplyView::Pass,
                Some(action) => if press.repeat && action != HotkeyAction::Next && action != HotkeyAction::Previous {
                    KeyReplyView::Nothing
                } else {
                    KeyReplyView::Shortcut(action)
                },
            }
        }
    }

    /// What becomes of a key. Escape is handled before everything else, so that a panel that
    /// waits for its changes to be saved is not closed by the system.
    pub open spec fn pressed(self, press: KeyPressView) -> (StateView, KeyReplyView) {
        if press.in_menu || !press.focused {
            (self, KeyReplyView::Pass)
        } else if press.code == ESCAPE && press.modifiers == 0 {
            if press.repeat {
                (self, KeyReplyView::Nothing)
            } else if self.recording is Some {
                (StateView { recording: None, ..self }, KeyReplyView::Refresh)
            } else {
                (self, KeyReplyView::Escape)
            }
        } else if !self.ready || self.pending {
            (self, KeyReplyView::Pass)
        } else {
            match self.recording {
                Some(action) => self.recorded(action, press),
                None => (self, self.performed(press)),
            }
        }
    }
}

impl Default for State {
    fn default() -> (r: Self)
        ensures
            r@ == StateView::blank(),
    {
        State {
            preferences: hotkeys::Preferences::default(),
            recording: None,
            pending: false,
            ready: false,
            error: None,
            inbox: false,
        }
    }
}

impl State {
    /// What becomes of a key while a shortcut is recorded.
    fn record(&mut self, action: HotkeyAction, press: &KeyPress) -> (r: KeyReply)
        ensures
            (final(self)@, r@) == old(self)@.recorded(action, press@),
    {
        if press.repeat {
            return KeyReply::Nothing;
        }
        self.recording = None;
        if press.code == ESCAPE {
            return KeyReply::Refresh;
        }
        match hotkeys::key_code_name(press.code) {
            Some(name) => KeyReply::Recorded {
                action,
                binding: Binding {
                    key: press.code,
                    modifiers: press.modifiers,
                    label: key_label(press.code, &press.characters, name),
                },
            },
            None => {
                self.error = Some(UNUSABLE.to_owned());
                KeyReply::Refresh
            },
        }
    }

    /// What becomes of a key that is neither Escape nor recorded.
    fn perform(&self, press: &KeyPress) -> (r: KeyReply)
        ensures
            r@ == self@.performed(press@),
    {
        if hotkeys::is_settings_shortcut(press.code, press.modifiers) {
            return if press.repeat {
                KeyReply::Nothing
            } else {
                KeyReply::Settings
            };
        }
        if !self.inbox || press.typing {
            return KeyReply::Pass;
        }
        match self.preferences.action(press.code, press.modifiers) {
            None => KeyReply::Pass,
            Some(action) => if action == HotkeyAction::OpenGopher {
                KeyReply::Pass
            } else if press.repeat && action != HotkeyAction::Next && action != HotkeyAction::Previous {
                KeyReply::Nothing
            } else {
                KeyReply::Shortcut(action)
            },
        }
    }

    /// What becomes of a key.
    pub fn key_down(&mut self, press: &KeyPress) -> (r: KeyReply)
        ensures
            (final(self)@, r@) == old(self)@.pressed(press@),
    {
        if press.in_menu || !press.focused {
            return KeyReply::Pass;
        }
        if press.code == ESCAPE && press.modifiers == 0 {
            if press.repeat {
                return KeyReply::Nothing;
            }
            return match self.recording {
                Some(_) => {
                    self.recording = None;
                    KeyReply::Refresh
                },
                None => KeyReply::Escape,
            };
        }
        if !self.ready || self.pending {
            return KeyReply::Pass;
        }
        match self.recording {
            Some(action) => self.record(action, press),
            None => self.perform(press),
        }
    }
}

// ---------------------------------------------------------------- registration

/// The text shown when keys cannot be registered for the whole system.
pub const UNAVAILABLE: &'static str = "Global shortcuts are unavailable";

/// The text shown when a key is taken.
pub const OCCUPIED: &'static str = "Shortcut is unavailable or already registered by another app";

impl KeyboardView {
    /// The keyboard with another error.
    pub open spec fn failed(self, message: Seq<char>) -> KeyboardView {
        KeyboardView { state: StateView { error: Some(message), ..self.state }, ..self }
    }

    /// The inbox is shown or not, takes shortcuts or not, and shows the settings or not.
    pub open spec fn synchronized(self, visible: bool, inbox: bool, settings: bool) -> KeyboardView {
        KeyboardView {
            state: StateView {
                recording: if settings && visible {
                    self.state.recording
                } else {
                    None
                },
                inbox,
                ..self.state
            },
            ..self
        }
    }

    /// The shortcuts were loaded.
    pub open spec fn loaded(self, chosen: hotkeys::PreferencesView, error: Option<Seq<char>>) -> KeyboardView {
        let known = KeyboardView {
            state: StateView {
                preferences: chosen,
                ready: true,
                error: if error is Some {
                    error
                } else {
                    self.state.error
                },
                ..self.state
            },
            ..self
        };
        match key_of(chosen) {
            Err(message) => known.failed("Cannot register Open Gopher: "@ + message),
            Ok(None) => KeyboardView { global: None, ..known },
            Ok(Some(key)) => if self.available {
                KeyboardView {
                    waiting: Some(WaitingView::Load(key)),
                    effects: known.effects.push(KeyEffectView::Register(key)),
                    ..known
                }
            } else {
                known.failed("Cannot register Open Gopher: "@ + UNAVAILABLE@)
            },
        }
    }

    /// A change is saved. What is registered stays so until that is done.
    pub open spec fn saving(self, chosen: hotkeys::PreferencesView, key: Option<GlobalKey>) -> KeyboardView {
        KeyboardView {
            state: StateView { pending: true, ..self.state },
            pending: Some(PendingView { preferences: chosen, global: key }),
            effects: self.effects.push(KeyEffectView::Save(chosen)),
            ..self
        }
    }

    /// A key was registered, or could not be.
    pub open spec fn registered(self, result: Result<(), Seq<char>>) -> KeyboardView {
        let done = KeyboardView { waiting: None, ..self };
        match self.waiting {
            None => self,
            Some(WaitingView::Load(key)) => match result {
                Ok(()) => KeyboardView { global: Some(key), ..done },
                Err(message) => done.failed("Cannot register Open Gopher: "@ + message),
            },
            Some(WaitingView::Save { preferences, key }) => match result {
                Ok(()) => done.saving(preferences, Some(key)),
                Err(_) => done.failed(OCCUPIED@),
            },
        }
    }

    /// A change is to be saved. A key that is not registered is registered before that.
    pub open spec fn save_asked(self, next: Result<hotkeys::PreferencesView, Seq<char>>) -> KeyboardView {
        if !self.state.ready || self.pending is Some || self.waiting is Some {
            self
        } else {
            let stopped = KeyboardView { state: StateView { recording: None, ..self.state }, ..self };
            match next {
                Err(message) => stopped.failed(message),
                Ok(chosen) => match hotkeys::fault_of(chosen, self.dev) {
                    Some(message) => stopped.failed(message),
                    None => match key_of(chosen) {
                        Err(message) => stopped.failed(message),
                        Ok(key) => if key == self.global || key is None {
                            stopped.saving(chosen, key)
                        } else if self.available {
                            KeyboardView {
                                waiting: Some(WaitingView::Save { preferences: chosen, key: key->Some_0 }),
                                effects: stopped.effects.push(KeyEffectView::Register(key->Some_0)),
                                ..stopped
                            }
                        } else {
                            stopped.failed(UNAVAILABLE@)
                        },
                    },
                },
            }
        }
    }

    /// A change was saved, or could not be. Then the key that is no longer wanted is given
    /// up: the one before, or the one that was to replace it.
    pub open spec fn answered(self, result: Result<(), Seq<char>>) -> KeyboardView {
        match self.pending {
            None => self,
            Some(pending) => {
                let obsolete = if result is Ok {
                    self.global
                } else {
                    pending.global
                };
                let done = KeyboardView {
                    pending: None,
                    state: StateView { pending: false, ..self.state },
                    effects: if pending.global != self.global && self.available && obsolete is Some {
                        self.effects.push(KeyEffectView::Unregister(obsolete->Some_0))
                    } else {
                        self.effects
                    },
                    ..self
                };
                match result {
                    Ok(()) => KeyboardView {
                        global: pending.global,
                        state: StateView { preferences: pending.preferences, error: None, ..done.state },
                        ..done
                    },
                    Err(message) => done.failed("Could not save shortcuts: "@ + message),
                }
            },
        }
    }

    /// A shortcut was recorded for an action, or is to be cleared.
    pub open spec fn chosen(self, action: HotkeyAction, binding: Option<BindingView>) -> KeyboardView {
        let next = self.state.preferences.update(action.place(), Some(binding));
        self.save_asked(
            match hotkeys::fault_of(next, self.dev) {
                None => Ok(next),
                Some(message) => Err(message),
            },
        )
    }

    /// A change in the settings.
    pub open spec fn edited(self, edit: Edit) -> KeyboardView {
        if !self.state.ready || self.state.pending {
            self
        } else {
            let calm = KeyboardView { state: StateView { error: None, ..self.state }, ..self };
            match edit {
                Edit::Record(action) => KeyboardView {
                    state: StateView { recording: Some(action), ..calm.state },
                    ..calm
                },
                Edit::Clear(action) => calm.chosen(action, None),
                Edit::Reset => calm.save_asked(Ok(hotkeys::nothing_chosen())),
            }
        }
    }

    /// The registered key was pressed. While a shortcut is recorded, it is recorded.
    pub open spec fn called(self, key: GlobalKey, focused: bool) -> (KeyboardView, bool) {
        if self.global != Some(key) {
            (self, false)
        } else {
            match self.state.recording {
                None => (self, true),
                Some(action) => (
                    if focused {
                        self.chosen(action, hotkeys::binding_of(self.state.preferences, HotkeyAction::OpenGopher))
                    } else {
                        self
                    },
                    false,
                ),
            }
        }
    }

    /// The keys that are given up at the end.
    pub open spec fn registered_keys(self) -> Seq<GlobalKey> {
        let own = match self.global {
            Some(key) => seq![key],
            None => Seq::empty(),
        };
        let next = match self.pending {
            Some(pending) => match pending.global {
                Some(key) => if pending.global != self.global {
                    seq![key]
                } else {
                    Seq::empty()
                },
                None => Seq::empty(),
            },
            None => Seq::empty(),
        };
        if self.available {
            own + next
        } else {
            Seq::empty()
        }
    }
}

/// The contents of an answer.
pub open spec fn answer_view(r: Result<(), String>) -> Result<(), Seq<char>> {
    match r {
        Ok(()) => Ok(()),
        Err(message) => Err(message@),
    }
}

/// The contents of shortcuts that may not be sound.
pub open spec fn next_view(r: Result<hotkeys::Preferences, String>) -> Result<hotkeys::PreferencesView, Seq<char>> {
    match r {
        Ok(preferences) => Ok(preferences@),
        Err(message) => Err(message@),
    }
}

impl Keyboard {
    /// A keyboard, where keys can be registered for the whole system or not, and keys in the
    /// inbox can be observed or not.
    pub fn new(dev: bool, registry: Result<(), String>, observed: bool) -> (r: Self)
        ensures
            r@ == (KeyboardView {
                dev,
                state: StateView {
                    error: if !observed {
                        Some("Could not install keyboard shortcuts"@)
                    } else {
                        match answer_view(registry) {
                            Ok(()) => None,
                            Err(message) => Some("Global shortcut unavailable: "@ + message),
                        }
                    },
                    ..StateView::blank()
                },
                available: registry is Ok,
                global: None,
                pending: None,
                waiting: None,
                effects: Seq::empty(),
            }),
    {
        let mut state = State::default();
        let available = registry.is_ok();
        if let Err(message) = &registry {
            state.error = Some(text::concat("Global shortcut unavailable: ", message));
        }
        if !observed {
            state.error = Some("Could not install keyboard shortcuts".to_owned());
        }
        let effects: Vec<KeyEffect> = Vec::new();
        assert(effects.deep_view() =~= Seq::empty());
        Keyboard { dev, state, available, global: None, pending: None, waiting: None, effects }
    }

    /// Takes what is asked for.
    pub fn take_effects(&mut self) -> (r: Vec<KeyEffect>)
        ensures
            r.deep_view() == old(self)@.effects,
            final(self)@ == (KeyboardView { effects: Seq::empty(), ..old(self)@ }),
    {
        let mut taken: Vec<KeyEffect> = Vec::new();
        std::mem::swap(&mut self.effects, &mut taken);
        assert(self.effects.deep_view() =~= Seq::empty());
        taken
    }

    /// Asks for something.
    fn ask(&mut self, effect: KeyEffect)
        ensures
            final(self)@ == (KeyboardView { effects: old(self)@.effects.push(effect@), ..old(self)@ }),
    {
        let ghost before = self.effects.deep_view();
        self.effects.push(effect);
        assert(self.effects.deep_view() =~= before.push(effect@));
    }

    /// Shows an error.
    fn fail(&mut self, message: String)
        ensures
            final(self)@ == old(self)@.failed(message@),
    {
        self.state.error = Some(message);
    }

    /// The inbox is shown or not, takes shortcuts or not, and shows the settings or not.
    pub fn sync(&mut self, visible: bool, inbox: bool, settings: bool)
        ensures
            final(self)@ == old(self)@.synchronized(visible, inbox, settings),
    {
        if !settings || !visible {
            self.state.recording = None;
        }
        self.state.inbox = inbox;
    }

    /// The shortcuts were loaded.
    pub fn load(&mut self, preferences: hotkeys::Preferences, error: Option<String>)
        ensures
            final(self)@ == old(self)@.loaded(preferences@, error.deep_view()),
    {
        self.state.preferences = preferences;
        self.state.ready = true;
        if error.is_some() {
            self.state.error = error;
        }
        match global_key(&self.state.preferences) {
            Err(message) => {
                self.fail(text::concat("Cannot register Open Gopher: ", &message));
            },
            Ok(None) => {
                self.global = None;
            },
            Ok(Some(key)) => {
                if self.available {
                    self.waiting = Some(Waiting::Load(key));
                    self.ask(KeyEffect::Register(key));
                } else {
                    self.fail(text::concat("Cannot register Open Gopher: ", UNAVAILABLE));
                }
            },
        }
    }

    /// A change is saved.
    fn begin(&mut self, preferences: hotkeys::Preferences, key: Option<GlobalKey>)
        ensures
            final(self)@ == old(self)@.saving(preferences@, key),
    {
        self.state.pending = true;
        let copy = preferences.copy();
        self.pending = Some(Pending { preferences, global: key });
        self.ask(KeyEffect::Save(copy));
    }

    /// A key was registered, or could not be.
    pub fn register_done(&mut self, result: Result<(), String>)
        ensures
            final(self)@ == old(self)@.registered(answer_view(result)),
    {
        match self.waiting.take() {
            None => {},
            Some(Waiting::Load(key)) => match result {
                Ok(()) => {
                    self.global = Some(key);
                },
                Err(message) => {
                    self.fail(text::concat("Cannot register Open Gopher: ", &message));
                },
            },
            Some(Waiting::Save { preferences, key }) => match result {
                Ok(()) => {
                    self.begin(preferences, Some(key));
                },
                Err(_) => {
                    self.fail(OCCUPIED.to_owned());
                },
            },
        }
    }

    /// A change is to be saved.
    pub fn save(&mut self, next: Result<hotkeys::Preferences, String>)
        ensures
            final(self)@ == old(self)@.save_asked(next_view(next)),
    {
        if !self.state.ready || self.pending.is_some() || self.waiting.is_some() {
            return;
        }
        self.state.recording = None;
        let preferences = match next {
            Ok(preferences) => preferences,
            Err(message) => {
                self.fail(message);
                return;
            },
        };
        if let Err(message) = preferences.validate(self.dev) {
            self.fail(message);
            return;
        }
        match global_key(&preferences) {
            Err(message) => {
                self.fail(message);
            },
            Ok(None) => {
                self.begin(preferences, None);
            },
            Ok(Some(key)) => {
                let same = match self.global {
                    Some(own) => own == key,
                    None => false,
                };
                if same {
                    self.begin(preferences, Some(key));
                } else if self.available {
                    self.waiting = Some(Waiting::Save { preferences, key });
                    self.ask(KeyEffect::Register(key));
                } else {
                    self.fail(UNAVAILABLE.to_owned());
                }
            },
        }
    }

    /// A change was saved, or could not be.
    pub fn saved(&mut self, result: Result<(), String>)
        ensures
            final(self)@ == old(self)@.answered(answer_view(result)),
    {
        let pending = match self.pending.take() {
            Some(pending) => pending,
            None => {
                return;
            },
        };
        self.state.pending = false;
        let obsolete = if result.is_ok() {
            self.global
        } else {
            pending.global
        };
        let other = match (pending.global, self.global) {
            (Some(a), Some(b)) => a != b,
            (None, None) => false,
            _ => true,
        };
        if other && self.available {
            if let Some(key) = obsolete {
                self.ask(KeyEffect::Unregister(key));
            }
        }
        match result {
            Ok(()) => {
                self.global = pending.global;
                self.state.preferences = pending.preferences;
                self.state.error = None;
            },
            Err(message) => {
                self.fail(text::concat("Could not save shortcuts: ", &message));
            },
        }
    }

    /// A shortcut was recorded for an action, or is to be cleared.
    pub fn recorded(&mut self, action: HotkeyAction, binding: Option<Binding>)
        ensures
            final(self)@ == old(self)@.chosen(action, binding.deep_view()),
    {
        let next = self.state.preferences.changed(action, binding, self.dev);
        self.save(next);
    }

    /// A change in the settings.
    pub fn edit(&mut self, edit: Edit)
        ensures
            final(self)@ == old(self)@.edited(edit),
    {
        if !self.state.ready || self.state.pending {
            return;
        }
        self.state.error = None;
        match edit {
            Edit::Record(action) => {
                self.state.recording = Some(action);
            },
            Edit::Clear(action) => {
                self.recorded(action, None);
            },
            Edit::Reset => {
                self.save(Ok(hotkeys::Preferences::default()));
            },
        }
    }

    /// The registered key was pressed. The result says whether the inbox opens or closes.
    pub fn global_event(&mut self, key: GlobalKey, focused: bool) -> (r: bool)
        ensures
            (final(self)@, r) == old(self)@.called(key, focused),
    {
        let own = match self.global {
            Some(global) => global == key,
            None => false,
        };
        if !own {
            return false;
        }
        match self.state.recording {
            None => true,
            Some(action) => {
                if focused {
                    let binding = self.state.preferences.binding(HotkeyAction::OpenGopher);
                    self.recorded(action, binding);
                }
                false
            },
        }
    }

    /// The keys that are given up at the end.
    pub fn release(&self) -> (r: Vec<GlobalKey>)
        ensures
            r@ == self@.registered_keys(),
    {
        let mut keys: Vec<GlobalKey> = Vec::new();
        if !self.available {
            return keys;
        }
        if let Some(key) = self.global {
            keys.push(key);
        }
        if let Some(pending) = &self.pending {
            if let Some(key) = pending.global {
                let other = match self.global {
                    Some(own) => own != key,
                    None => true,
                };
                if other {
                    keys.push(key);
                }
            }
        }
        assert(keys@ =~= self@.registered_keys());
        keys
    }
}

// ---------------------------------------------------------------- laws

/// Until a change is saved, nothing changes: neither the shortcuts nor the registered key.
pub proof fn changes_wait_for_saving(
    keyboard: KeyboardView,
    next: Result<hotkeys::PreferencesView, Seq<char>>,
    result: Result<(), Seq<char>>,
)
    requires
        keyboard.waiting is None,
    ensures
        keyboard.save_asked(next).global == keyboard.global,
        keyboard.save_asked(next).state.preferences == keyboard.state.preferences,
        keyboard.save_asked(next).registered(result).global == keyboard.global,
        keyboard.save_asked(next).registered(result).state.preferences == keyboard.state.preferences,
{
}

/// A change that could not be saved leaves the shortcuts and the registered key as they
/// were, and gives the key up that was registered for it.
pub proof fn failed_changes_are_undone(keyboard: KeyboardView, message: Seq<char>)
    requires
        keyboard.pending is Some,
    ensures
        ({
            let after = keyboard.answered(Err(message));
            &&& after.global == keyboard.global
            &&& after.state.preferences == keyboard.state.preferences
            &&& after.registered_keys() == (if keyboard.available && keyboard.global is Some {
                seq![keyboard.global->Some_0]
            } else {
                Seq::empty()
            })
            &&& (keyboard.available && keyboard.pending->Some_0.global is Some && keyboard.pending->Some_0.global
                != keyboard.global ==> after.effects.last() == KeyEffectView::Unregister(
                keyboard.pending->Some_0.global->Some_0,
            ))
        }),
{
    assert(keyboard.answered(Err(message)).registered_keys() =~= (if keyboard.available && keyboard.global is Some {
        seq![keyboard.global->Some_0]
    } else {
        Seq::empty()
    }));
}

/// A change that was saved takes effect as a whole: the shortcuts and the registered key are
/// the new ones, and the key before is given up.
pub proof fn saved_changes_take_effect(keyboard: KeyboardView)
    requires
        keyboard.pending is Some,
    ensures
        ({
            let after = keyboard.answered(Ok(()));
            let pending = keyboard.pending->Some_0;
            &&& after.global == pending.global
            &&& after.state.preferences == pending.preferences
            &&& after.state.error is None
            &&& (keyboard.available && keyboard.global is Some && pending.global != keyboard.global
                ==> after.effects.last() == KeyEffectView::Unregister(keyboard.global->Some_0))
        }),
{
}

/// A key that another application has is neither saved nor does it replace the one before.
pub proof fn occupied_keys_are_not_saved(
    keyboard: KeyboardView,
    next: Result<hotkeys::PreferencesView, Seq<char>>,
    message: Seq<char>,
)
    requires
        keyboard.waiting is None,
        keyboard.save_asked(next).waiting is Some,
    ensures
        ({
            let after = keyboard.save_asked(next).registered(Err(message));
            &&& after.pending == keyboard.pending
            &&& after.global == keyboard.global
            &&& after.state.preferences == keyboard.state.preferences
            &&& after.state.error is Some
            &&& after.effects == keyboard.save_asked(next).effects
        }),
{
}

/// Escape never changes a shortcut: it stops a recording, or goes to the inbox.
pub proof fn escape_changes_nothing(state: StateView, press: KeyPressView)
    requires
        press.code == ESCAPE,
    ensures
        state.pressed(press).0.preferences == state.preferences,
        !(state.pressed(press).1 is Recorded),
{
}

} // verus!
