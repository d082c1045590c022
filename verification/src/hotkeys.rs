//! Shortcut preferences, and the selection in the inbox.

use crate::identity;
use crate::text;
use vstd::prelude::*;

verus! {

broadcast use vstd::seq_lib::group_seq_properties;

pub const COMMAND: u8 = 1;

pub const OPTION: u8 = 2;

pub const CONTROL: u8 = 4;

pub const SHIFT: u8 = 8;

/// What a shortcut does.
#[derive(Clone, Copy, Debug, PartialEq, Eq, Structural, PartialOrd, Ord)]
pub enum HotkeyAction {
    OpenGopher,
    Next,
    Previous,
    Acknowledge,
    OpenPr,
    Details,
    Actions,
    Refresh,
}

/// The actions in their order.
pub open spec fn all_actions() -> Seq<HotkeyAction> {
    seq![
        HotkeyAction::OpenGopher,
        HotkeyAction::Next,
        HotkeyAction::Previous,
        HotkeyAction::Acknowledge,
        HotkeyAction::OpenPr,
        HotkeyAction::Details,
        HotkeyAction::Actions,
        HotkeyAction::Refresh,
    ]
}

impl HotkeyAction {
    /// The actions in their order.
    pub const ALL: [HotkeyAction; 8] = [
        HotkeyAction::OpenGopher,
        HotkeyAction::Next,
        HotkeyAction::Previous,
        HotkeyAction::Acknowledge,
        HotkeyAction::OpenPr,
        HotkeyAction::Details,
        HotkeyAction::Actions,
        HotkeyAction::Refresh,
    ];

    /// The place of an action in the order.
    pub open spec fn place(self) -> int {
        match self {
            HotkeyAction::OpenGopher => 0,
            HotkeyAction::Next => 1,
            HotkeyAction::Previous => 2,
            HotkeyAction::Acknowledge => 3,
            HotkeyAction::OpenPr => 4,
            HotkeyAction::Details => 5,
            HotkeyAction::Actions => 6,
            HotkeyAction::Refresh => 7,
        }
    }

    /// The name shown for an action in a build.
    pub open spec fn label_text(self, dev: bool) -> Seq<char> {
        match self {
            HotkeyAction::OpenGopher => identity::identity_of(dev).open,
            HotkeyAction::Next => "Next PR"@,
            HotkeyAction::Previous => "Previous PR"@,
            HotkeyAction::Acknowledge => "Acknowledge"@,
            HotkeyAction::OpenPr => "Open PR"@,
            HotkeyAction::Details => "Toggle Details"@,
            HotkeyAction::Actions => "Open Actions"@,
            HotkeyAction::Refresh => "Refresh"@,
        }
    }

    /// The shortcut that an action has unless the user chooses another.
    pub open spec fn initial(self) -> Option<BindingView> {
        match self {
            HotkeyAction::OpenGopher => None,
            HotkeyAction::Next => Some(BindingView { key: 38, modifiers: 0, label: "J"@ }),
            HotkeyAction::Previous => Some(BindingView { key: 40, modifiers: 0, label: "K"@ }),
            HotkeyAction::Acknowledge => Some(BindingView { key: 49, modifiers: 0, label: "Space"@ }),
            HotkeyAction::OpenPr => Some(BindingView { key: 31, modifiers: 0, label: "O"@ }),
            HotkeyAction::Details => Some(BindingView { key: 2, modifiers: 0, label: "D"@ }),
            HotkeyAction::Actions => Some(BindingView { key: 0, modifiers: 0, label: "A"@ }),
            HotkeyAction::Refresh => Some(BindingView { key: 15, modifiers: 0, label: "R"@ }),
        }
    }

    /// The place of an action in the order.
    fn index(self) -> (r: usize)
        ensures
            r == self.place(),
            r < 8,
    {
        match self {
            HotkeyAction::OpenGopher => 0,
            HotkeyAction::Next => 1,
            HotkeyAction::Previous => 2,
            HotkeyAction::Acknowledge => 3,
            HotkeyAction::OpenPr => 4,
            HotkeyAction::Details => 5,
            HotkeyAction::Actions => 6,
            HotkeyAction::Refresh => 7,
        }
    }

    /// The name shown for an action in a build.
    pub fn label(self, dev: bool) -> (r: &'static str)
        ensures
            r@ == self.label_text(dev),
    {
        match self {
            HotkeyAction::OpenGopher => identity::open(dev),
            HotkeyAction::Next => "Next PR",
            HotkeyAction::Previous => "Previous PR",
            HotkeyAction::Acknowledge => "Acknowledge",
            HotkeyAction::OpenPr => "Open PR",
            HotkeyAction::Details => "Toggle Details",
            HotkeyAction::Actions => "Open Actions",
            HotkeyAction::Refresh => "Refresh",
        }
    }

    /// The shortcut that an action has unless the user chooses another.
    pub fn default_binding(self) -> (r: Option<Binding>)
        ensures
            r.deep_view() == self.initial(),
    {
        match self {
            HotkeyAction::OpenGopher => None,
            HotkeyAction::Next => Some(Binding { key: 38, modifiers: 0, label: "J".to_owned() }),
            HotkeyAction::Previous => Some(Binding { key: 40, modifiers: 0, label: "K".to_owned() }),
            HotkeyAction::Acknowledge => Some(Binding { key: 49, modifiers: 0, label: "Space".to_owned() }),
            HotkeyAction::OpenPr => Some(Binding { key: 31, modifiers: 0, label: "O".to_owned() }),
            HotkeyAction::Details => Some(Binding { key: 2, modifiers: 0, label: "D".to_owned() }),
            HotkeyAction::Actions => Some(Binding { key: 0, modifiers: 0, label: "A".to_owned() }),
            HotkeyAction::Refresh => Some(Binding { key: 15, modifiers: 0, label: "R".to_owned() }),
        }
    }
}

/// A key with modifiers. The key is a virtual key code, so a binding follows the recorded
/// key across keyboard layouts.
#[derive(Debug, PartialEq, Eq)]
pub struct Binding {
    pub key: u16,
    pub modifiers: u8,
    pub label: String,
}

/// The contents of a [`Binding`].
#[verifier::ext_equal]
pub struct BindingView {
    pub key: u16,
    pub modifiers: u8,
    pub label: Seq<char>,
}

impl View for Binding {
    type V = BindingView;

    open spec fn view(&self) -> BindingView {
        BindingView { key: self.key, modifiers: self.modifiers, label: self.label@ }
    }
}

impl DeepView for Binding {
    type V = BindingView;

    open spec fn deep_view(&self) -> BindingView {
        self@
    }
}

impl Clone for Binding {
    fn clone(&self) -> (r: Self)
        ensures
            r@ == self@,
    {
        Binding { key: self.key, modifiers: self.modifiers, label: self.label.clone() }
    }
}

/// A text where a modifier is held, and nothing where it is not.
pub open spec fn symbol_if(modifiers: u8, mask: u8, symbol: Seq<char>) -> Seq<char> {
    if modifiers & mask != 0 {
        symbol
    } else {
        Seq::empty()
    }
}

impl BindingView {
    /// How a binding is shown: the symbols of its modifiers, and the key.
    pub open spec fn shown(self) -> Seq<char> {
        symbol_if(self.modifiers, CONTROL, "⌃"@) + symbol_if(self.modifiers, OPTION, "⌥"@) + symbol_if(
            self.modifiers,
            SHIFT,
            "⇧"@,
        ) + symbol_if(self.modifiers, COMMAND, "⌘"@) + self.label
    }
}

impl Binding {
    /// How a binding is shown.
    pub fn display(&self) -> (r: String)
        ensures
            r@ == self@.shown(),
    {
        let mut r = String::new();
        if self.modifiers & CONTROL != 0 {
            r.append("⌃");
        }
        if self.modifiers & OPTION != 0 {
            r.append("⌥");
        }
        if self.modifiers & SHIFT != 0 {
            r.append("⇧");
        }
        if self.modifiers & COMMAND != 0 {
            r.append("⌘");
        }
        r.append(&self.label);
        assert(r@ =~= self@.shown());
        r
    }

    /// Whether a binding is a key with modifiers.
    pub fn matches(&self, key: u16, modifiers: u8) -> (r: bool)
        ensures
            r == (self@.key == key && self@.modifiers == modifiers),
    {
        self.key == key && self.modifiers == modifiers
    }
}

/// Whether a key with modifiers opens the settings.
pub open spec fn settings_shortcut(key: u16, modifiers: u8) -> bool {
    key == 43 && modifiers == COMMAND
}

/// Whether a key with modifiers opens the settings.
pub fn is_settings_shortcut(key: u16, modifiers: u8) -> (r: bool)
    ensures
        r == settings_shortcut(key, modifiers),
{
    key == 43 && modifiers == COMMAND
}

/// The names of the keys that a shortcut may use.
pub open spec fn key_name(key: u16) -> Option<Seq<char>> {
    match key {
        0 => Some("KeyA"@),
        1 => Some("KeyS"@),
        2 => Some("KeyD"@),
        3 => Some("KeyF"@),
        4 => Some("KeyH"@),
        5 => Some("KeyG"@),
        6 => Some("KeyZ"@),
        7 => Some("KeyX"@),
        8 => Some("KeyC"@),
        9 => Some("KeyV"@),
        11 => Some("KeyB"@),
        12 => Some("KeyQ"@),
        13 => Some("KeyW"@),
        14 => Some("KeyE"@),
        15 => Some("KeyR"@),
        16 => Some("KeyY"@),
        17 => Some("KeyT"@),
        18 => Some("Digit1"@),
        19 => Some("Digit2"@),
        20 => Some("Digit3"@),
        21 => Some("Digit4"@),
        22 => Some("Digit6"@),
        23 => Some("Digit5"@),
        24 => Some("Equal"@),
        25 => Some("Digit9"@),
        26 => Some("Digit7"@),
        27 => Some("Minus"@),
        28 => Some("Digit8"@),
        29 => Some("Digit0"@),
        30 => Some("BracketRight"@),
        31 => Some("KeyO"@),
        32 => Some("KeyU"@),
        33 => Some("BracketLeft"@),
        34 => Some("KeyI"@),
        35 => Some("KeyP"@),
        36 => Some("Enter"@),
        37 => Some("KeyL"@),
        38 => Some("KeyJ"@),
        39 => Some("Quote"@),
        40 => Some("KeyK"@),
        41 => Some("Semicolon"@),
        42 => Some("Backslash"@),
        43 => Some("Comma"@),
        44 => Some("Slash"@),
        45 => Some("KeyN"@),
        46 => Some("KeyM"@),
        47 => Some("Period"@),
        49 => Some("Space"@),
        50 => Some("Backquote"@),
        96 => Some("F5"@),
        97 => Some("F6"@),
        98 => Some("F7"@),
        99 => Some("F3"@),
        100 => Some("F8"@),
        101 => Some("F9"@),
        103 => Some("F11"@),
        109 => Some("F10"@),
        111 => Some("F12"@),
        118 => Some("F4"@),
        120 => Some("F2"@),
        122 => Some("F1"@),
        123 => Some("ArrowLeft"@),
        124 => Some("ArrowRight"@),
        125 => Some("ArrowDown"@),
        126 => Some("ArrowUp"@),
        _ => None,
    }
}

/// The name of a key that a shortcut may use.
pub fn key_code_name(key: u16) -> (r: Option<&'static str>)
    ensures
        match r {
            Some(name) => key_name(key) == Some(name@),
            None => key_name(key) is None,
        },
{
    match key {
        0 => Some("KeyA"),
        1 => Some("KeyS"),
        2 => Some("KeyD"),
        3 => Some("KeyF"),
        4 => Some("KeyH"),
        5 => Some("KeyG"),
        6 => Some("KeyZ"),
        7 => Some("KeyX"),
        8 => Some("KeyC"),
        9 => Some("KeyV"),
        11 => Some("KeyB"),
        12 => Some("KeyQ"),
        13 => Some("KeyW"),
        14 => Some("KeyE"),
        15 => Some("KeyR"),
        16 => Some("KeyY"),
        17 => Some("KeyT"),
        18 => Some("Digit1"),
        19 => Some("Digit2"),
        20 => Some("Digit3"),
        21 => Some("Digit4"),
        22 => Some("Digit6"),
        23 => Some("Digit5"),
        24 => Some("Equal"),
        25 => Some("Digit9"),
        26 => Some("Digit7"),
        27 => Some("Minus"),
        28 => Some("Digit8"),
        29 => Some("Digit0"),
        30 => Some("BracketRight"),
        31 => Some("KeyO"),
        32 => Some("KeyU"),
        33 => Some("BracketLeft"),
        34 => Some("KeyI"),
        35 => Some("KeyP"),
        36 => Some("Enter"),
        37 => Some("KeyL"),
        38 => Some("KeyJ"),
        39 => Some("Quote"),
        40 => Some("KeyK"),
        41 => Some("Semicolon"),
        42 => Some("Backslash"),
        43 => Some("Comma"),
        44 => Some("Slash"),
        45 => Some("KeyN"),
        46 => Some("KeyM"),
        47 => Some("Period"),
        49 => Some("Space"),
        50 => Some("Backquote"),
        96 => Some("F5"),
        97 => Some("F6"),
        98 => Some("F7"),
        99 => Some("F3"),
        100 => Some("F8"),
        101 => Some("F9"),
        103 => Some("F11"),
        109 => Some("F10"),
        111 => Some("F12"),
        118 => Some("F4"),
        120 => Some("F2"),
        122 => Some("F1"),
        123 => Some("ArrowLeft"),
        124 => Some("ArrowRight"),
        125 => Some("ArrowDown"),
        126 => Some("ArrowUp"),
        _ => None,
    }
}

/// What the user chose for an action.
#[derive(Debug, PartialEq, Eq)]
enum Choice {
    /// Nothing: the action has its first shortcut.
    Initial,
    /// That the action has no shortcut.
    Unset,
    /// A shortcut.
    Bound(Binding),
}

impl Choice {
    spec fn contents(&self) -> Option<Option<BindingView>> {
        match self {
            Choice::Initial => None,
            Choice::Unset => Some(None),
            Choice::Bound(binding) => Some(Some(binding@)),
        }
    }

    fn copy(&self) -> (r: Choice)
        ensures
            r.contents() == self.contents(),
    {
        match self {
            Choice::Initial => Choice::Initial,
            Choice::Unset => Choice::Unset,
            Choice::Bound(binding) => Choice::Bound(binding.clone()),
        }
    }
}

/// The shortcuts that the user chose.
#[derive(Debug, PartialEq, Eq)]
pub struct Preferences {
    choices: Vec<Choice>,
}

/// The contents of [`Preferences`]: what was chosen, for each action by its place. Nothing
/// stands for an action about which nothing was chosen.
pub type PreferencesView = Seq<Option<Option<BindingView>>>;

impl View for Preferences {
    type V = PreferencesView;

    closed spec fn view(&self) -> PreferencesView {
        Seq::new(self.choices@.len(), |i: int| self.choices@[i].contents())
    }
}

impl DeepView for Preferences {
    type V = PreferencesView;

    open spec fn deep_view(&self) -> PreferencesView {
        self@
    }
}

/// Nothing was chosen.
pub open spec fn nothing_chosen() -> PreferencesView {
    seq![None, None, None, None, None, None, None, None]
}

/// The shortcut of an action.
pub open spec fn binding_of(chosen: PreferencesView, action: HotkeyAction) -> Option<BindingView> {
    match chosen[action.place()] {
        Some(choice) => choice,
        None => action.initial(),
    }
}

/// Whether two actions have the same key with the same modifiers.
pub open spec fn clash(chosen: PreferencesView, a: HotkeyAction, b: HotkeyAction) -> bool {
    match (binding_of(chosen, a), binding_of(chosen, b)) {
        (Some(x), Some(y)) => x.key == y.key && x.modifiers == y.modifiers,
        _ => false,
    }
}

/// Whether a label can be shown.
pub open spec fn sound_label(label: Seq<char>) -> bool {
    &&& label.len() > 0
    &&& vstd::utf8::encode_utf8(label).len() <= 32
    &&& forall|i: int| 0 <= i < label.len() ==> !text::control(#[trigger] label[i])
}

/// What is wrong with a shortcut by itself, if anything is.
pub open spec fn binding_fault(binding: BindingView, action: HotkeyAction) -> Option<Seq<char>> {
    if key_name(binding.key) is None {
        Some("This key is not supported as a shortcut"@)
    } else if binding.modifiers & !15u8 != 0 {
        Some("Unsupported shortcut modifier"@)
    } else if settings_shortcut(binding.key, binding.modifiers) {
        Some("Command+, is reserved for Settings"@)
    } else if !sound_label(binding.label) {
        Some("Invalid shortcut label"@)
    } else if action == HotkeyAction::OpenGopher && binding.modifiers & (COMMAND | OPTION | CONTROL) == 0 {
        Some("Open Gopher needs Command, Option, or Control to avoid capturing ordinary typing"@)
    } else {
        None
    }
}

/// The first action before a place that has the same shortcut as the one at the place.
pub open spec fn first_clash(chosen: PreferencesView, place: int, count: nat) -> Option<HotkeyAction>
    decreases count,
{
    if count == 0 {
        None
    } else {
        match first_clash(chosen, place, (count - 1) as nat) {
            Some(action) => Some(action),
            None => if clash(chosen, all_actions()[count - 1], all_actions()[place]) {
                Some(all_actions()[count - 1])
            } else {
                None
            },
        }
    }
}

/// What is wrong with the shortcut at a place, if anything is.
pub open spec fn place_fault(chosen: PreferencesView, place: int, dev: bool) -> Option<Seq<char>> {
    let action = all_actions()[place];
    match binding_of(chosen, action) {
        None => None,
        Some(binding) => match binding_fault(binding, action) {
            Some(message) => Some(message),
            None => match first_clash(chosen, place, place as nat) {
                Some(other) => Some(binding.shown() + " is already assigned to "@ + other.label_text(dev)),
                None => None,
            },
        },
    }
}

/// What is wrong with the first `count` shortcuts, if anything is.
pub open spec fn fault_up_to(chosen: PreferencesView, count: nat, dev: bool) -> Option<Seq<char>>
    decreases count,
{
    if count == 0 {
        None
    } else {
        match fault_up_to(chosen, (count - 1) as nat, dev) {
            Some(message) => Some(message),
            None => place_fault(chosen, count - 1, dev),
        }
    }
}

/// What is wrong with shortcuts, as a build says it, if anything is.
pub open spec fn fault_of(chosen: PreferencesView, dev: bool) -> Option<Seq<char>> {
    fault_up_to(chosen, 8, dev)
}

/// The first of `count` actions that has a key with modifiers as its shortcut.
pub open spec fn action_of(chosen: PreferencesView, key: u16, modifiers: u8, count: nat) -> Option<HotkeyAction>
    decreases count,
{
    if count == 0 {
        None
    } else {
        match action_of(chosen, key, modifiers, (count - 1) as nat) {
            Some(action) => Some(action),
            None => match binding_of(chosen, all_actions()[count - 1]) {
                Some(binding) => if binding.key == key && binding.modifiers == modifiers {
                    Some(all_actions()[count - 1])
                } else {
                    None
                },
                None => None,
            },
        }
    }
}

impl Default for Preferences {
    fn default() -> (r: Self)
        ensures
            r@ == nothing_chosen(),
            r@.len() == 8,
    {
        let r = Preferences {
            choices: vec![
                Choice::Initial,
                Choice::Initial,
                Choice::Initial,
                Choice::Initial,
                Choice::Initial,
                Choice::Initial,
                Choice::Initial,
                Choice::Initial,
            ],
        };
        assert(r@ =~= nothing_chosen());
        r
    }
}

impl Preferences {
    #[verifier::type_invariant]
    spec fn one_choice_per_action(&self) -> bool {
        self.choices@.len() == 8
    }

    /// A copy of the preferences.
    pub fn copy(&self) -> (r: Preferences)
        ensures
            r@ == self@,
            r@.len() == 8,
    {
        proof {
            use_type_invariant(self);
        }
        let mut choices: Vec<Choice> = Vec::new();
        let mut i: usize = 0;
        while i < self.choices.len()
            invariant
                i <= self.choices@.len(),
                choices@.len() == i,
                forall|k: int| 0 <= k < i ==> (#[trigger] choices@[k]).contents() == self.choices@[k].contents(),
            decreases self.choices.len() - i,
        {
            choices.push(self.choices[i].copy());
            i += 1;
        }
        let r = Preferences { choices };
        assert(r@ =~= self@);
        r
    }

    /// The shortcut of an action.
    pub fn binding(&self, action: HotkeyAction) -> (r: Option<Binding>)
        ensures
            r.deep_view() == binding_of(self@, action),
    {
        proof {
            use_type_invariant(self);
        }
        match &self.choices[action.index()] {
            Choice::Initial => action.default_binding(),
            Choice::Unset => None,
            Choice::Bound(binding) => Some(binding.clone()),
        }
    }

    /// What was chosen for an action.
    pub fn chosen(&self, action: HotkeyAction) -> (r: Option<Option<Binding>>)
        ensures
            r.deep_view() == self@[action.place()],
    {
        proof {
            use_type_invariant(self);
        }
        match &self.choices[action.index()] {
            Choice::Initial => None,
            Choice::Unset => Some(None),
            Choice::Bound(binding) => Some(Some(binding.clone())),
        }
    }

    /// The preferences with a choice for an action, not checked.
    pub fn with(self, action: HotkeyAction, binding: Option<Binding>) -> (r: Preferences)
        ensures
            r@ == self@.update(action.place(), Some(binding.deep_view())),
            r@.len() == 8,
    {
        proof {
            use_type_invariant(&self);
        }
        let ghost before = self@;
        let ghost given = binding.deep_view();
        let mut choices = self.choices;
        let choice = match binding {
            Some(binding) => Choice::Bound(binding),
            None => Choice::Unset,
        };
        assert(choice.contents() == Some(given));
        choices.set(action.index(), choice);
        let r = Preferences { choices };
        assert(r@ =~= before.update(action.place(), Some(given)));
        r
    }

    /// The preferences with another choice for an action, if they are sound.
    pub fn changed(&self, action: HotkeyAction, binding: Option<Binding>, dev: bool) -> (r: Result<Preferences, String>)
        ensures
            ({
                let next = self@.update(action.place(), Some(binding.deep_view()));
                match r {
                    Ok(preferences) => preferences@ == next && fault_of(next, dev) is None,
                    Err(message) => fault_of(next, dev) == Some(message@),
                }
            }),
    {
        let next = self.copy().with(action, binding);
        match next.validate(dev) {
            Ok(_) => Ok(next),
            Err(message) => Err(message),
        }
    }

    /// Checks that the shortcuts are sound: every one can be recorded and shown, none is
    /// reserved, and no two are the same.
    pub fn validate(&self, dev: bool) -> (r: Result<(), String>)
        ensures
            match r {
                Ok(_) => fault_of(self@, dev) is None,
                Err(message) => fault_of(self@, dev) == Some(message@),
            },
    {
        proof {
            use_type_invariant(self);
        }
        let all = HotkeyAction::ALL;
        let mut i: usize = 0;
        while i < 8
            invariant
                i <= 8,
                all@ == all_actions(),
                fault_up_to(self@, i as nat, dev) is None,
            decreases 8 - i,
        {
            let action = all[i];
            if let Some(binding) = self.binding(action) {
                if let Some(message) = check_binding(&binding, action) {
                    proof {
                        faults_stay(self@, (i + 1) as nat, 8, dev);
                    }
                    return Err(message);
                }
                let mut j: usize = 0;
                while j < i
                    invariant
                        j <= i < 8,
                        all@ == all_actions(),
                        action == all_actions()[i as int],
                        binding_of(self@, action) == Some(binding@),
                        binding_fault(binding@, action) is None,
                        fault_up_to(self@, i as nat, dev) is None,
                        first_clash(self@, i as int, j as nat) is None,
                    decreases i - j,
                {
                    let other = all[j];
                    let same = match self.binding(other) {
                        Some(taken) => taken.matches(binding.key, binding.modifiers),
                        None => false,
                    };
                    assert(same == clash(self@, other, action));
                    if same {
                        proof {
                            clashes_stay(self@, i as int, (j + 1) as nat, i as nat);
                            faults_stay(self@, (i + 1) as nat, 8, dev);
                        }
                        return Err(text::concat3(&binding.display(), " is already assigned to ", other.label(dev)));
                    }
                    j += 1;
                }
            }
            i += 1;
        }
        Ok(())
    }

    /// The action that has a key with modifiers as its shortcut.
    pub fn action(&self, key: u16, modifiers: u8) -> (r: Option<HotkeyAction>)
        ensures
            r == action_of(self@, key, modifiers, 8),
    {
        let all = HotkeyAction::ALL;
        let mut i: usize = 0;
        while i < 8
            invariant
                i <= 8,
                all@ == all_actions(),
                action_of(self@, key, modifiers, i as nat) is None,
            decreases 8 - i,
        {
            if let Some(binding) = self.binding(all[i]) {
                if binding.matches(key, modifiers) {
                    proof {
                        actions_stay(self@, key, modifiers, (i + 1) as nat, 8);
                    }
                    return Some(all[i]);
                }
            }
            i += 1;
        }
        None
    }
}

impl Clone for Preferences {
    fn clone(&self) -> (r: Self)
        ensures
            r@ == self@,
    {
        self.copy()
    }
}

/// What is wrong with a shortcut by itself, if anything is.
fn check_binding(binding: &Binding, action: HotkeyAction) -> (r: Option<String>)
    ensures
        r.deep_view() == binding_fault(binding@, action),
{
    if key_code_name(binding.key).is_none() {
        return Some("This key is not supported as a shortcut".to_owned());
    }
    if binding.modifiers & !15u8 != 0 {
        return Some("Unsupported shortcut modifier".to_owned());
    }
    if is_settings_shortcut(binding.key, binding.modifiers) {
        return Some("Command+, is reserved for Settings".to_owned());
    }
    if !label_is_sound(&binding.label) {
        return Some("Invalid shortcut label".to_owned());
    }
    if action == HotkeyAction::OpenGopher && binding.modifiers & (COMMAND | OPTION | CONTROL) == 0 {
        return Some(
            "Open Gopher needs Command, Option, or Control to avoid capturing ordinary typing".to_owned(),
        );
    }
    None
}

/// Whether a label can be shown.
fn label_is_sound(label: &str) -> (r: bool)
    ensures
        r == sound_label(label@),
{
    if label.is_empty() || label.as_bytes().len() > 32 {
        return false;
    }
    let letters = text::chars(label);
    let mut i: usize = 0;
    while i < letters.len()
        invariant
            letters@ == label@,
            i <= letters@.len(),
            forall|k: int| 0 <= k < i ==> !text::control(#[trigger] letters@[k]),
        decreases letters.len() - i,
    {
        if text::is_control(letters[i]) {
            return false;
        }
        i += 1;
    }
    true
}

/// A fault in some shortcuts is a fault of all of them.
proof fn faults_stay(chosen: PreferencesView, i: nat, count: nat, dev: bool)
    requires
        i <= count,
        fault_up_to(chosen, i, dev) is Some,
    ensures
        fault_up_to(chosen, count, dev) == fault_up_to(chosen, i, dev),
    decreases count - i,
{
    if i < count {
        faults_stay(chosen, i, (count - 1) as nat, dev);
    }
}

/// The first clash stays the first one.
proof fn clashes_stay(chosen: PreferencesView, place: int, i: nat, count: nat)
    requires
        i <= count,
        first_clash(chosen, place, i) is Some,
    ensures
        first_clash(chosen, place, count) == first_clash(chosen, place, i),
    decreases count - i,
{
    if i < count {
        clashes_stay(chosen, place, i, (count - 1) as nat);
    }
}

/// The first action stays the first one.
proof fn actions_stay(chosen: PreferencesView, key: u16, modifiers: u8, i: nat, count: nat)
    requires
        i <= count,
        action_of(chosen, key, modifiers, i) is Some,
    ensures
        action_of(chosen, key, modifiers, count) == action_of(chosen, key, modifiers, i),
    decreases count - i,
{
    if i < count {
        actions_stay(chosen, key, modifiers, i, (count - 1) as nat);
    }
}

// ---------------------------------------------------------------- the selection

/// The pull requests in the order in which they are shown, and the selected one.
#[derive(Debug)]
pub struct Navigation {
    pub selected: Option<String>,
    pub order: Vec<String>,
}

/// The contents of a [`Navigation`].
#[verifier::ext_equal]
pub struct NavigationView {
    pub selected: Option<Seq<char>>,
    pub order: Seq<Seq<char>>,
}

impl View for Navigation {
    type V = NavigationView;

    open spec fn view(&self) -> NavigationView {
        NavigationView { selected: self.selected.deep_view(), order: self.order.deep_view() }
    }
}

/// The first place of a text in a list.
pub open spec fn position(order: Seq<Seq<char>>, id: Seq<char>) -> Option<int>
    decreases order.len(),
{
    if order.len() == 0 {
        None
    } else if order[0] == id {
        Some(0)
    } else {
        match position(order.drop_first(), id) {
            Some(i) => Some(i + 1),
            None => None,
        }
    }
}

impl NavigationView {
    /// The order is another one. What is no longer shown is no longer selected.
    pub open spec fn updated(self, order: Seq<Seq<char>>) -> NavigationView {
        NavigationView {
            order,
            selected: if self.selected is Some && order.contains(self.selected->0) {
                self.selected
            } else {
                None
            },
        }
    }

    /// The item at a place, if there is one.
    pub open spec fn item(self, i: int) -> Option<Seq<char>> {
        if 0 <= i < self.order.len() {
            Some(self.order[i])
        } else {
            None
        }
    }

    /// The selection moves by one. Beyond either end nothing is selected, and from nothing
    /// it moves to the nearer end.
    pub open spec fn stepped(self, forward: bool) -> NavigationView {
        let place = match self.selected {
            Some(id) => position(self.order, id),
            None => None,
        };
        NavigationView {
            selected: match place {
                None => if forward {
                    self.item(0)
                } else {
                    self.item(self.order.len() - 1)
                },
                Some(i) => if forward {
                    self.item(i + 1)
                } else {
                    self.item(i - 1)
                },
            },
            ..self
        }
    }
}

impl Default for Navigation {
    fn default() -> (r: Self)
        ensures
            r@ == (NavigationView { selected: None, order: Seq::empty() }),
    {
        let r = Navigation { selected: None, order: Vec::new() };
        assert(r.order.deep_view() =~= Seq::empty());
        r
    }
}

/// A text is not found before its first place.
proof fn position_from(v: Seq<Seq<char>>, id: Seq<char>, i: int)
    requires
        0 <= i <= v.len(),
        forall|k: int| 0 <= k < i ==> v[k] != id,
    ensures
        position(v, id) == (match position(v.skip(i), id) {
            Some(k) => Some(k + i),
            None => None,
        }),
    decreases i,
{
    if i == 0 {
        assert(v.skip(0) =~= v);
    } else {
        position_from(v, id, i - 1);
        let rest = v.skip(i - 1);
        assert(rest[0] == v[i - 1]);
        assert(rest.drop_first() =~= v.skip(i));
    }
}

/// The first place of a text in a list.
#[verifier::spinoff_prover]
fn find(order: &Vec<String>, id: &str) -> (r: Option<usize>)
    ensures
        match r {
            Some(i) => position(order.deep_view(), id@) == Some(i as int) && i < order@.len() && order.deep_view().contains(
                id@,
            ),
            None => position(order.deep_view(), id@) is None && !order.deep_view().contains(id@),
        },
{
    let ghost v = order.deep_view();
    let mut i: usize = 0;
    while i < order.len()
        invariant
            v == order.deep_view(),
            v.len() == order@.len(),
            i <= order@.len(),
            forall|k: int| 0 <= k < i ==> v[k] != id@,
        decreases order.len() - i,
    {
        assert(v[i as int] == order@[i as int]@);
        if text::same(&order[i], id) {
            proof {
                position_from(v, id@, i as int);
                assert(v.skip(i as int)[0] == v[i as int]);
                assert(v.contains(v[i as int]));
            }
            return Some(i);
        }
        i += 1;
    }
    proof {
        position_from(v, id@, i as int);
        assert(v.skip(i as int).len() == 0);
    }
    None
}

impl Navigation {
    /// The order is another one.
    pub fn update(&mut self, order: Vec<String>)
        ensures
            final(self)@ == old(self)@.updated(order.deep_view()),
    {
        let keep = match &self.selected {
            Some(id) => find(&order, id).is_some(),
            None => false,
        };
        self.order = order;
        if !keep {
            self.selected = None;
        }
    }

    /// A copy of the item at a place, if there is one.
    fn item(&self, i: usize) -> (r: Option<String>)
        ensures
            r.deep_view() == self@.item(i as int),
    {
        if i < self.order.len() {
            Some(self.order[i].clone())
        } else {
            None
        }
    }

    /// The selection moves by one.
    pub fn step(&mut self, forward: bool)
        ensures
            final(self)@ == old(self)@.stepped(forward),
    {
        let place: Option<usize> = match &self.selected {
            Some(id) => find(&self.order, id),
            None => None,
        };
        let count: usize = self.order.len();
        self.selected = match place {
            None => if forward {
                self.item(0)
            } else if count > 0 {
                self.item(count - 1)
            } else {
                None
            },
            Some(i) => if forward {
                self.item(i + 1)
            } else if i > 0 {
                self.item(i - 1)
            } else {
                None
            },
        };
    }
}

// ---------------------------------------------------------------- laws

/// In sound preferences no two actions have the same shortcut, and none has the one that
/// opens the settings.
pub proof fn sound_shortcuts_are_unique(chosen: PreferencesView, dev: bool, a: HotkeyAction, b: HotkeyAction)
    requires
        fault_of(chosen, dev) is None,
    ensures
        a != b ==> !clash(chosen, a, b),
        binding_of(chosen, a) is Some ==> !settings_shortcut(
            binding_of(chosen, a)->0.key,
            binding_of(chosen, a)->0.modifiers,
        ),
{
    no_fault_before(chosen, dev, a.place(), 8);
    no_fault_before(chosen, dev, b.place(), 8);
    assert(all_actions()[a.place()] == a);
    assert(all_actions()[b.place()] == b);
    if a.place() < b.place() && clash(chosen, a, b) {
        some_clash(chosen, b.place(), a.place(), b.place() as nat);
    }
    if b.place() < a.place() && clash(chosen, a, b) {
        some_clash(chosen, a.place(), b.place(), a.place() as nat);
    }
}

/// Where all shortcuts are sound, each of them is.
proof fn no_fault_before(chosen: PreferencesView, dev: bool, place: int, count: nat)
    requires
        fault_up_to(chosen, count, dev) is None,
        0 <= place < count,
    ensures
        place_fault(chosen, place, dev) is None,
    decreases count,
{
    if place < count - 1 {
        no_fault_before(chosen, dev, place, (count - 1) as nat);
    }
}

/// A clash with an earlier action is found.
proof fn some_clash(chosen: PreferencesView, place: int, other: int, count: nat)
    requires
        0 <= other < count,
        clash(chosen, all_actions()[other], all_actions()[place]),
    ensures
        first_clash(chosen, place, count) is Some,
    decreases count,
{
    if other < count - 1 {
        some_clash(chosen, place, other, (count - 1) as nat);
    }
}

/// In sound preferences a shortcut performs its own action.
pub proof fn shortcut_performs_its_action(chosen: PreferencesView, dev: bool, action: HotkeyAction)
    requires
        fault_of(chosen, dev) is None,
        binding_of(chosen, action) is Some,
    ensures
        action_of(chosen, binding_of(chosen, action)->0.key, binding_of(chosen, action)->0.modifiers, 8) == Some(action),
{
    let binding = binding_of(chosen, action)->0;
    let place = action.place();
    assert(all_actions()[place] == action);
    no_action_before(chosen, dev, action, place as nat);
    actions_stay(chosen, binding.key, binding.modifiers, (place + 1) as nat, 8);
}

/// No action before another one has its shortcut.
proof fn no_action_before(chosen: PreferencesView, dev: bool, action: HotkeyAction, count: nat)
    requires
        fault_of(chosen, dev) is None,
        binding_of(chosen, action) is Some,
        count <= action.place(),
    ensures
        action_of(chosen, binding_of(chosen, action)->0.key, binding_of(chosen, action)->0.modifiers, count) is None,
    decreases count,
{
    if count > 0 {
        no_action_before(chosen, dev, action, (count - 1) as nat);
        let other = all_actions()[count - 1];
        assert(other.place() == count - 1);
        sound_shortcuts_are_unique(chosen, dev, other, action);
    }
}

/// A step forward and a step back return to the same selection, where each item is listed
/// once and the selection is one of them or none.
pub proof fn steps_are_undone(nav: NavigationView)
    requires
        nav.order.no_duplicates(),
        nav.selected is None || nav.order.contains(nav.selected->0),
    ensures
        nav.stepped(true).stepped(false) == nav,
        nav.stepped(false).stepped(true) == nav,
{
    let n = nav.order.len() as int;
    if nav.selected is Some {
        let i = choose|i: int| 0 <= i < n && nav.order[i] == nav.selected->0;
        position_of_item(nav.order, i);
        if i + 1 < n {
            position_of_item(nav.order, i + 1);
        }
        if i > 0 {
            position_of_item(nav.order, i - 1);
        }
    } else if n > 0 {
        position_of_item(nav.order, 0);
        position_of_item(nav.order, n - 1);
    }
}

/// The place of an item that is listed once.
proof fn position_of_item(order: Seq<Seq<char>>, i: int)
    requires
        order.no_duplicates(),
        0 <= i < order.len(),
    ensures
        position(order, order[i]) == Some(i),
    decreases order.len(),
{
    if i > 0 {
        let rest = order.drop_first();
        assert(rest[i - 1] == order[i]);
        assert(order[0] != order[i]);
        position_of_item(rest, i - 1);
    }
}

/// After the order changes, the selection is still shown.
pub proof fn selection_is_shown(nav: NavigationView, order: Seq<Seq<char>>)
    ensures
        nav.updated(order).selected is Some ==> order.contains(nav.updated(order).selected->0) && nav.updated(order).selected
            == nav.selected,
{
}

} // verus!
