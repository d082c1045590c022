use gopher::actions::{Condition, Kind, MergeMethod, MergeProgress, Preferences, Setting};
use gopher::model::{CheckState, PullRequest, Snapshot, State};
use gopher::store::{Store, Tables, VERSION};
use gopher::text_map::TextMap;

fn reopen(mut store: Store) -> Store {
    let mut tables = Tables::default();
    for change in store.take_changes() {
        tables.apply(&change);
    }
    Store::open(VERSION, tables).unwrap()
}

#[test]
fn preferences_are_disabled_by_default_and_persist_per_repository_without_pr_cache() {
    let mut store = Store::open(VERSION, Tables::default()).unwrap();
    let mut preferences = Preferences::default();
    assert!(!preferences.merge.enabled && !preferences.label.enabled);
    assert_eq!(preferences.merge_method, MergeMethod::Merge);
    preferences.apply(&Setting::Enabled(Kind::Merge, true));
    preferences.apply(&Setting::MergeMethod(MergeMethod::Squash));
    preferences.apply(&Setting::Condition(Kind::Label, Condition::Comments));
    store.save_action_preferences("Owner/Repo", &preferences);
    store.set_viewer("first");
    store.set_viewer("second");
    let none: TextMap<()> = TextMap::new();
    store.retain(&none);
    let stored = reopen(store).action_preferences();
    assert_eq!(*stored.get("owner/repo").unwrap(), preferences);
    assert_eq!(stored.len(), 1);
}

#[test]
fn conditions_match_exact_states_and_disable_stale_closed_or_draft_merges() {
    let mut pr = PullRequest::unreviewed(Snapshot { open: true, ..Default::default() });
    pr.stale = false;
    let mut preferences = Preferences::default();
    preferences.merge.enabled = true;
    preferences.label.enabled = true;
    for condition in Condition::ALL {
        preferences.merge.condition = condition;
        for state in [State::Unknown, State::Reviewing, State::Comments, State::Approved] {
            pr.state = state;
            assert_eq!(
                preferences.allows(Kind::Merge, &pr),
                condition == Condition::Always || condition.label() == state.label()
            );
        }
    }
    preferences.merge.condition = Condition::Always;
    pr.stale = true;
    assert!(!preferences.allows(Kind::Merge, &pr));
    assert!(!preferences.allows(Kind::Label, &pr));
    pr.stale = false;
    pr.snapshot.open = false;
    assert!(!preferences.allows(Kind::Merge, &pr));
    pr.snapshot.open = true;
    pr.snapshot.draft = true;
    assert!(!preferences.allows(Kind::Merge, &pr));
    assert!(preferences.allows(Kind::Label, &pr));
}

#[test]
fn conflicts_disable_merge_for_every_condition_but_allow_labels() {
    let mut pr = PullRequest::unreviewed(Snapshot { open: true, ..Default::default() });
    pr.stale = false;
    let mut preferences = Preferences::default();
    preferences.merge.enabled = true;
    preferences.label.enabled = true;
    for (condition, state) in [
        (Condition::Always, State::Unknown),
        (Condition::Reviewing, State::Reviewing),
        (Condition::Comments, State::Comments),
        (Condition::Approved, State::Approved),
    ] {
        preferences.merge.condition = condition;
        pr.state = state;
        for checks in [
            Some(CheckState::Conflicts),
            Some(CheckState::Green),
            Some(CheckState::Running),
            Some(CheckState::Failed),
            None,
        ] {
            pr.snapshot.check_state = checks;
            assert_eq!(preferences.allows(Kind::Merge, &pr), checks != Some(CheckState::Conflicts));
            assert!(preferences.allows(Kind::Label, &pr));
        }
    }
}

#[test]
fn merge_progress_is_shown() {
    assert_eq!(MergeProgress::Countdown(5).text(), "Cancel (5s)");
    assert_eq!(MergeProgress::Checking.text(), "Checking merge…");
    assert_eq!(MergeProgress::Merging.text(), "Merging…");
    assert_eq!(MergeProgress::Complete.text(), "Merged");
    assert_eq!(MergeProgress::Failed("blocked".into()).text(), "blocked");
    assert!(MergeProgress::Merging.busy());
    assert!(!MergeProgress::Complete.busy());
}

#[test]
fn settings_change_one_thing() {
    let mut preferences = Preferences::default();
    assert_eq!(preferences.merge.condition, Condition::Approved);
    assert_eq!(preferences.label.condition, Condition::Always);
    preferences.apply(&Setting::Condition(Kind::Merge, Condition::Comments));
    assert_eq!(preferences.rule(Kind::Merge).condition, Condition::Comments);
    assert_eq!(preferences.rule(Kind::Label).condition, Condition::Always);
    preferences.apply(&Setting::Enabled(Kind::Label, true));
    assert!(preferences.label.enabled && !preferences.merge.enabled);
}

#[test]
fn repositories_are_found_without_regard_to_capitals() {
    assert_eq!(gopher::actions::repo_key("Owner/Repo"), "owner/repo");
    let labels = [MergeMethod::Merge, MergeMethod::Squash, MergeMethod::Rebase].map(|m| m.label());
    assert_eq!(labels, ["Merge commit", "Squash", "Rebase"]);
    assert_eq!(MergeMethod::ALL.map(|m| m.api_name()), ["merge", "squash", "rebase"]);
}
