use gopher::hotkeys::{
    is_settings_shortcut, key_code_name, Binding, HotkeyAction, Navigation, Preferences, COMMAND, CONTROL, OPTION, SHIFT,
};
use gopher::store::{Store, Tables, VERSION};
use gopher::text_map::TextMap;
use gopher::worker::events::{Command, Output, UiEvent};
use gopher::worker::monitor::{Monitor, Time};

fn reopen(store: &mut Store, mut tables: Tables) -> Store {
    for change in store.take_changes() {
        tables.apply(&change);
    }
    Store::open(VERSION, tables).unwrap()
}

#[test]
fn settings_shortcut_is_reserved_for_every_configurable_action() {
    let binding = Binding { key: 43, modifiers: COMMAND, label: ",".into() };
    for action in HotkeyAction::ALL {
        let error = Preferences::default().changed(action, Some(binding.clone()), false).unwrap_err();
        assert_eq!(error.to_string(), "Command+, is reserved for Settings");
    }
    assert!(is_settings_shortcut(43, COMMAND));
    assert!(!is_settings_shortcut(43, COMMAND | SHIFT));
    assert!(!is_settings_shortcut(43, 0));
}

#[test]
fn defaults_conflicts_and_unsetting() {
    let prefs = Preferences::default();
    prefs.validate(false).unwrap();
    assert_eq!(prefs.action(38, 0), Some(HotkeyAction::Next));
    assert_eq!(prefs.action(38, SHIFT), None);
    assert!(prefs.binding(HotkeyAction::OpenGopher).is_none());
    assert!(prefs.changed(HotkeyAction::Previous, prefs.binding(HotkeyAction::Next), false).is_err());
    assert!(prefs.changed(HotkeyAction::OpenGopher, prefs.binding(HotkeyAction::Next), false).is_err());
    let cleared = prefs.changed(HotkeyAction::Next, None, false).unwrap();
    // What was chosen, and only that, makes the same preferences again.
    let mut restored = Preferences::default();
    for action in HotkeyAction::ALL {
        if let Some(binding) = cleared.chosen(action) {
            restored = restored.with(action, binding);
        }
    }
    assert!(restored.binding(HotkeyAction::Next).is_none());
    assert_eq!(restored.binding(HotkeyAction::Previous), prefs.binding(HotkeyAction::Previous));
    assert_eq!(restored, cleared);
}

#[test]
fn navigation_has_none_at_both_ends_and_keeps_identity() {
    let mut nav = Navigation::default();
    nav.step(true);
    assert_eq!(nav.selected, None);
    nav.update(vec!["a".into(), "b".into()]);
    for expected in [Some("a"), Some("b"), None] {
        nav.step(true);
        assert_eq!(nav.selected.as_deref(), expected);
    }
    for expected in [Some("b"), Some("a"), None] {
        nav.step(false);
        assert_eq!(nav.selected.as_deref(), expected);
    }
    nav.step(true);
    nav.update(vec!["b".into(), "a".into()]);
    assert_eq!(nav.selected.as_deref(), Some("a"));
    nav.update(vec!["b".into()]);
    assert_eq!(nav.selected, None);
}

#[test]
fn shortcuts_persist_independently_of_accounts_and_pr_cache() {
    let mut store = Store::open(VERSION, Tables::default()).unwrap();
    let preferences = Preferences::default()
        .changed(HotkeyAction::OpenGopher, Some(Binding { key: 5, modifiers: COMMAND, label: "G".into() }), false)
        .unwrap()
        .changed(HotkeyAction::Next, None, false)
        .unwrap();
    store.save_hotkeys(&preferences, false).unwrap();
    store.set_viewer("first");
    store.set_viewer("second");
    let none: TextMap<()> = TextMap::new();
    store.retain(&none);
    let loaded = reopen(&mut store, Tables::default()).hotkeys(false).unwrap();
    assert_eq!(loaded, preferences);
    assert!(loaded.binding(HotkeyAction::Next).is_none());
}

#[test]
fn worker_confirms_shortcuts_only_after_persistence_and_reports_failures() {
    let time = Time { now: 100, clock: 0, paused: false };
    let store = Store::open(VERSION, Tables::default()).unwrap();
    let mut monitor = Monitor::new(false, Default::default(), store, 900_000, 0);
    let loaded = monitor.take_outputs().into_iter().find_map(|output| match output {
        Output::Ui(UiEvent::HotkeysLoaded { preferences, error }) => Some((preferences, error)),
        _ => None,
    });
    let (initial, error) = loaded.unwrap();
    assert_eq!(initial, Preferences::default());
    assert!(error.is_none());
    let preferences = Preferences::default().changed(HotkeyAction::Next, None, false).unwrap();
    monitor.step(Command::SaveHotkeys(preferences.copy()), time);
    // Nothing is confirmed before the shortcuts are written down.
    let written = monitor.take_outputs();
    assert!(written.iter().all(|o| !matches!(o, Output::Ui(UiEvent::HotkeysSaved(_)))));
    assert!(written.iter().any(|o| matches!(o, Output::WriteHotkeys(p) if *p == preferences)));
    monitor.step(Command::HotkeysWritten { preferences: preferences.copy(), result: Ok(()) }, time);
    assert!(monitor.take_outputs().iter().any(|o| matches!(o, Output::Ui(UiEvent::HotkeysSaved(Ok(()))))));
    assert_eq!(monitor.store.hotkeys(false).unwrap(), preferences);
    monitor.step(Command::SaveHotkeys(Preferences::default()), time);
    monitor.take_outputs();
    monitor.step(
        Command::HotkeysWritten { preferences: Preferences::default(), result: Err("Simulated disk failure".into()) },
        time,
    );
    let failed = monitor.take_outputs().into_iter().find_map(|o| match o {
        Output::Ui(UiEvent::HotkeysSaved(result)) => Some(result),
        _ => None,
    });
    assert!(failed.unwrap().unwrap_err().contains("Simulated disk failure"));
    assert_eq!(monitor.store.hotkeys(false).unwrap(), preferences);
}

#[test]
fn bindings_are_shown_with_their_modifiers() {
    let binding = Binding { key: 5, modifiers: COMMAND | OPTION | CONTROL | SHIFT, label: "G".into() };
    assert_eq!(binding.display(), "⌃⌥⇧⌘G");
    assert!(binding.matches(5, 15));
    assert!(!binding.matches(5, 7));
    assert_eq!(key_code_name(0), Some("KeyA"));
    assert_eq!(key_code_name(999), None);
}

#[test]
fn unusable_shortcuts_are_refused() {
    let prefs = Preferences::default();
    for (binding, action) in [
        (Binding { key: 999, modifiers: COMMAND, label: "?".into() }, HotkeyAction::Next),
        (Binding { key: 5, modifiers: 0, label: "".into() }, HotkeyAction::Next),
        (Binding { key: 5, modifiers: 0, label: "G".repeat(33) }, HotkeyAction::Next),
        (Binding { key: 5, modifiers: 0, label: "G".into() }, HotkeyAction::OpenGopher),
    ] {
        assert!(prefs.changed(action, Some(binding), false).is_err());
    }
}

#[test]
fn clashes_name_the_action_as_the_build_does() {
    let taken = Some(Binding { key: 5, modifiers: COMMAND, label: "G".into() });
    for (dev, name) in [(false, "Open Gopher"), (true, "Open Gopher Dev")] {
        assert_eq!(HotkeyAction::OpenGopher.label(dev), name);
        let preferences = Preferences::default().changed(HotkeyAction::OpenGopher, taken.clone(), dev).unwrap();
        let error = preferences.changed(HotkeyAction::Next, taken.clone(), dev).unwrap_err();
        assert_eq!(error, format!("⌘G is already assigned to {name}"));
    }
}
