use gopher::actions::{
    ActionState, Condition, Kind, Label, LabelCatalogue, Labels, MergeMethod, MergeProgress, Preferences, Request, Rule,
    Setting,
};
use gopher::config::Config;
use gopher::model::{CheckState, PrLabel, PullRequest, Review, Snapshot, State, Thread};
use gopher::store::{Store, Tables, VERSION};
use gopher::text_map::TextMap;
use gopher::worker::action_worker::effects::{ActionCommand, Context, Effect};
use gopher::worker::action_worker::{Coordinator, LABEL_CANCELLED};
use gopher::worker::transition;
use std::collections::VecDeque;

const NOW: i64 = 1_790_000_000;

/// Something that takes time: what it was is kept until its result is looked at.
enum Pending {
    Answer(ActionCommand),
    Countdown(String, u64, u8),
    CheckMerge(String, u64),
    CheckLabel(String, u64),
    LoadCatalogues(Vec<(String, u64)>),
}

struct Harness {
    store: Store,
    coordinator: Coordinator,
    prs: TextMap<PullRequest>,
    config: Config,
    viewer: &'static str,
    /// The account that the CLI is logged in to.
    account: &'static str,
    snapshot: Snapshot,
    catalogue: Vec<PrLabel>,
    pending: VecDeque<Pending>,
    merges: Vec<(String, MergeMethod)>,
    mutations: Vec<(String, bool)>,
    fetches: usize,
    saved: Vec<(String, PrLabel, bool)>,
    events: Vec<Option<ActionState>>,
    authentications: usize,
}

/// What GitHub says of the pull request: a clean review, and a thread.
fn fixture(resolved: bool) -> Snapshot {
    Snapshot {
        id: "PR_1".into(),
        repo: "owner/repo".into(),
        number: 1,
        head: "head".into(),
        open: true,
        reviews: vec![Review {
            id: "review-1".into(),
            author: "cubic-dev-ai[bot]".into(),
            body: "0 issues found".into(),
            state: "COMMENTED".into(),
            commit: "head".into(),
            submitted_at: "2026-09-07T16:30:00Z".into(),
        }],
        threads: vec![Thread {
            id: "thread-1".into(),
            author: "cubic-dev-ai[bot]".into(),
            last_comment_id: "comment-1".into(),
            resolved,
            ..Default::default()
        }],
        ..Default::default()
    }
}

fn label(name: &str, color: &str, selected: bool) -> Label {
    Label { name: name.into(), color: color.into(), selected }
}

fn labels(items: Vec<Label>) -> Labels {
    Labels { items, ..Default::default() }
}

impl Harness {
    fn new() -> Harness {
        let mut store = Store::open(VERSION, Tables::default()).unwrap();
        store.set_viewer("test");
        let preferences = Preferences {
            merge: Rule { enabled: true, condition: Condition::Always },
            label: Rule { enabled: true, condition: Condition::Always },
            ..Default::default()
        };
        store.save_action_preferences("owner/repo", &preferences);
        let pr = transition(
            Snapshot {
                id: "PR_1".into(),
                repo: "owner/repo".into(),
                number: 1,
                head: "head".into(),
                open: true,
                ..Default::default()
            },
            None,
            None,
            100,
            0,
        );
        let coordinator = Coordinator::new(&store);
        let mut prs = TextMap::new();
        prs.insert("PR_1".to_string(), pr);
        Harness {
            store,
            coordinator,
            prs,
            config: Config { settle_seconds: 0, ..Default::default() },
            viewer: "test",
            account: "test",
            snapshot: fixture(false),
            catalogue: vec![PrLabel { name: "bug".into(), color: "ff0000".into() }],
            pending: VecDeque::new(),
            merges: Vec::new(),
            mutations: Vec::new(),
            fetches: 0,
            saved: Vec::new(),
            events: Vec::new(),
            authentications: 0,
        }
    }

    fn with<T>(&mut self, work: impl FnOnce(&mut Coordinator, &Context) -> T) -> T {
        let context = Context {
            store: &self.store,
            prs: &self.prs,
            viewer: Some(self.viewer),
            config: &self.config,
            now: NOW,
            clock: 0,
            paused: false,
        };
        let result = work(&mut self.coordinator, &context);
        self.perform();
        result
    }

    fn perform(&mut self) {
        for effect in self.coordinator.take_effects() {
            match effect {
                Effect::Publish(state) => self.events.push(Some(state)),
                Effect::LabelRequestHandled => self.events.push(None),
                Effect::SavePreferences { repo, preferences } => {
                    self.store.save_action_preferences(&repo, &preferences);
                    self.handle(ActionCommand::Configured { repo, preferences, result: Ok(()) });
                }
                Effect::SaveCatalogue { viewer, repo, catalogue } => {
                    self.store.save_label_catalogue(&viewer, &repo, &catalogue)
                }
                Effect::Countdown { pr, token } => {
                    for remaining in (0..5).rev() {
                        self.pending.push_back(Pending::Countdown(pr.clone(), token, remaining));
                    }
                }
                Effect::CheckMerge { pr, token, reference, viewer } => {
                    assert_eq!(reference.number, 1);
                    assert_eq!(viewer, "test");
                    self.pending.push_back(Pending::CheckMerge(pr, token));
                }
                Effect::SubmitMerge { pr, token, reference, head, method } => {
                    assert_eq!(reference.repo, "owner/repo");
                    self.merges.push((head, method));
                    self.pending.push_back(Pending::Answer(ActionCommand::Merged { pr, token, result: Ok(()) }));
                }
                Effect::LoadCatalogues { viewer, jobs } => {
                    assert_eq!(viewer, "test");
                    self.pending.push_back(Pending::LoadCatalogues(jobs));
                }
                Effect::CheckLabel { pr, token, .. } => self.pending.push_back(Pending::CheckLabel(pr, token)),
                Effect::RejectLabel { pr, token } => self.pending.push_back(Pending::Answer(
                    ActionCommand::LabelChecked { pr, token, result: Err(LABEL_CANCELLED.to_string()) },
                )),
                Effect::SubmitLabel { pr, token, name, selected, .. } => {
                    self.mutations.push((name, selected));
                    self.pending.push_back(Pending::Answer(ActionCommand::LabelDone { pr, token, result: Ok(()) }));
                }
                Effect::Refresh => {}
                Effect::LabelSaved { viewer, label, selected, .. } => self.saved.push((viewer, label, selected)),
            }
        }
    }

    fn handle(&mut self, command: ActionCommand) {
        self.with(|coordinator, context| coordinator.handle(command, context));
    }

    fn request(&mut self, request: Request) {
        self.handle(ActionCommand::Request(request));
    }

    fn start_merge(&mut self) -> u64 {
        let update = self.prs.get("PR_1").unwrap().update_id.clone();
        self.request(Request::Merge { pr: "PR_1".into(), head: "head".into(), update });
        self.coordinator.merges.get("PR_1").unwrap().token
    }

    fn tick(&mut self, token: u64, remaining: u8) {
        self.pending.clear();
        self.handle(ActionCommand::Tick { pr: "PR_1".into(), token, remaining });
    }

    fn authenticate(&mut self) -> Result<(), String> {
        self.authentications += 1;
        if self.account == "test" {
            Ok(())
        } else {
            Err("GitHub account changed".to_string())
        }
    }

    fn step(&mut self) {
        let command = match self.pending.pop_front().unwrap() {
            Pending::Answer(command) => command,
            Pending::Countdown(pr, token, remaining) => ActionCommand::Tick { pr, token, remaining },
            Pending::CheckMerge(pr, token) => {
                let result = self.authenticate().map(|_| Box::new(self.snapshot.clone()));
                ActionCommand::MergeChecked { pr, token, result }
            }
            Pending::CheckLabel(pr, token) => {
                let result = self.authenticate();
                ActionCommand::LabelChecked { pr, token, result }
            }
            Pending::LoadCatalogues(jobs) => {
                for (repo, token) in jobs {
                    self.fetches += 1;
                    let result = Ok(self.catalogue.clone());
                    self.handle(ActionCommand::LabelsLoaded { repo, token, result });
                }
                return;
            }
        };
        self.handle(command);
    }

    fn refresh_pr(&mut self) {
        let pr = transition(self.snapshot.clone(), None, None, 100, 0);
        self.prs.insert("PR_1".to_string(), pr);
    }

    fn change_pr(&mut self, change: impl FnOnce(&mut PullRequest)) {
        let mut pr = self.prs.get("PR_1").unwrap().clone();
        change(&mut pr);
        self.prs.insert("PR_1".to_string(), pr);
    }

    fn show_labels(&mut self, items: Vec<Label>) {
        self.coordinator.state.labels.insert("PR_1".to_string(), labels(items));
    }

    fn toggle(&mut self, name: &str, selected: bool) {
        self.request(Request::Label { pr: "PR_1".into(), name: name.into(), selected });
    }

    fn configure(&mut self, change: Setting) {
        self.request(Request::Configure { repo: "owner/repo".into(), change });
    }

    fn shown(&self) -> &Labels {
        self.coordinator.state.labels.get("PR_1").unwrap()
    }

    fn merge_state(&self) -> &MergeProgress {
        self.coordinator.state.merges.get("PR_1").unwrap()
    }

    fn sync_labels(&mut self) {
        self.with(|coordinator, context| coordinator.reconcile(context));
    }

    fn refresh_catalogues(&mut self) {
        self.with(|coordinator, context| coordinator.refresh_catalogues(context, None));
    }

    fn assert_no_merge(&self) {
        assert!(self.merges.is_empty());
    }
}

#[test]
fn shutdown_cancels_countdown_and_rejects_new_actions() {
    let mut h = Harness::new();
    let token = h.start_merge();
    h.coordinator.begin_shutdown();
    h.tick(token, 0);
    let update = h.prs.get("PR_1").unwrap().update_id.clone();
    h.request(Request::Merge { pr: "PR_1".into(), head: "head".into(), update });
    assert!(h.coordinator.merges.is_empty());
    assert!(!h.coordinator.has_submissions());
    h.assert_no_merge();
}

#[test]
fn shutdown_waits_for_a_submitted_merge_even_after_intent_invalidation() {
    let mut h = Harness::new();
    h.refresh_pr();
    let token = h.start_merge();
    h.tick(token, 0);
    while !h.coordinator.has_submissions() {
        h.step();
    }
    // What is shown may already have been discarded.
    h.coordinator.merges = TextMap::new();
    h.coordinator.begin_shutdown();
    assert!(h.coordinator.has_submissions());
    while h.coordinator.has_submissions() {
        h.step();
    }
    assert_eq!(h.merges.len(), 1);
}

#[test]
fn shutdown_finishes_submitted_label_but_cancels_the_queue() {
    let mut h = Harness::new();
    h.show_labels(vec![label("one", "ff0000", false), label("two", "ff0000", false)]);
    for name in ["one", "two"] {
        h.toggle(name, true);
    }
    while !h.coordinator.has_submissions() {
        h.step();
    }
    h.coordinator.begin_shutdown();
    assert!(h.coordinator.has_submissions());
    while h.coordinator.has_submissions() {
        h.step();
    }
    assert_eq!(h.mutations.len(), 1);
    assert!(h.saved[0].2);
    assert!(h.coordinator.label_jobs.is_empty());
}

#[test]
fn shutdown_reports_submitted_label_after_account_invalidation() {
    let mut h = Harness::new();
    h.show_labels(vec![label("one", "ff0000", false)]);
    h.toggle("one", true);
    while !h.coordinator.has_submissions() {
        h.step();
    }
    h.viewer = "another-account";
    h.store.set_viewer(h.viewer);
    h.sync_labels();
    assert!(h.coordinator.label_jobs.is_empty());
    // Even a new picker for the same pull request must not be changed by the old result.
    let mut pending = TextMap::new();
    pending.insert("one".to_string(), ());
    h.coordinator.state.labels.insert(
        "PR_1".to_string(),
        Labels { items: vec![label("one", "112233", false)], pending, ..Default::default() },
    );
    h.coordinator.begin_shutdown();
    while h.coordinator.has_submissions() {
        h.step();
    }
    let (viewer, saved, selected) = h.saved.first().expect("Missing submitted label result");
    assert_eq!(viewer, "test");
    assert_eq!(saved.name, "one");
    assert_eq!(saved.color, "ff0000");
    assert!(*selected);
    assert!(h.coordinator.submitted_labels.is_empty());
    assert!(h.coordinator.completed_labels.is_empty());
    let labels = h.shown();
    assert!(!labels.items[0].selected);
    assert!(labels.pending.contains_key("one"));
}

#[test]
fn merge_countdown_completes_without_ui_events_and_pins_the_commit() {
    let mut h = Harness::new();
    h.refresh_pr();
    h.start_merge();
    h.assert_no_merge();
    assert!(matches!(h.merge_state(), MergeProgress::Countdown(5)));
    let mut seconds = 0;
    for _ in 0..9 {
        if matches!(h.pending.front(), Some(Pending::Countdown(_, _, _))) {
            seconds += 1;
        }
        h.step();
        if matches!(h.merge_state(), MergeProgress::Complete) {
            break;
        }
    }
    assert!(matches!(h.merge_state(), MergeProgress::Complete));
    assert!(seconds >= 5);
    assert_eq!(h.merges.len(), 1);
    assert_eq!(h.merges[0].0, "head");
    assert_eq!(h.merges[0].1.api_name(), "merge");
}

#[test]
fn cancellation_invalidates_old_ticks_and_in_flight_validation() {
    let mut h = Harness::new();
    let old = h.start_merge();
    h.request(Request::CancelMerge("PR_1".into()));
    let current = h.start_merge();
    h.tick(old, 0);
    assert!(matches!(h.merge_state(), MergeProgress::Countdown(5)));
    h.tick(current, 0);
    assert!(matches!(h.merge_state(), MergeProgress::Checking));
    h.request(Request::CancelMerge("PR_1".into()));
    h.step();
    assert!(h.coordinator.merges.is_empty());
    assert!(h.coordinator.state.merges.is_empty());
    h.assert_no_merge();
}

#[test]
fn changed_commit_settings_account_ignore_or_conflicts_cancels_pending_merge() {
    for case in 0..5 {
        let mut h = Harness::new();
        let token = h.start_merge();
        match case {
            0 => h.change_pr(|pr| pr.snapshot.head = "new".into()),
            1 => h.configure(Setting::MergeMethod(MergeMethod::Squash)),
            2 => h.viewer = "different-user",
            3 => h.change_pr(|pr| pr.snapshot.check_state = Some(CheckState::Conflicts)),
            _ => h.prs = TextMap::new(),
        }
        h.tick(token, 4);
        assert!(h.coordinator.merges.is_empty());
        h.assert_no_merge();
    }
}

#[test]
fn fresh_validation_rejects_changed_head_closed_draft_or_conflicting_pr() {
    for case in 0..4 {
        let mut h = Harness::new();
        let token = h.start_merge();
        let mut snapshot = h.prs.get("PR_1").unwrap().snapshot.clone();
        match case {
            0 => snapshot.head = "new-head".into(),
            1 => snapshot.open = false,
            2 => snapshot.draft = true,
            _ => snapshot.check_state = Some(CheckState::Conflicts),
        }
        h.handle(ActionCommand::MergeChecked { pr: "PR_1".into(), token, result: Ok(Box::new(snapshot)) });
        assert!(matches!(h.merge_state(), MergeProgress::Failed(_)));
        h.assert_no_merge();
    }
}

#[test]
fn label_toggles_are_queued_and_results_only_change_the_requested_label() {
    let mut h = Harness::new();
    h.change_pr(|pr| pr.snapshot.labels.push(PrLabel { name: "second".into(), color: "00ff00".into() }));
    h.show_labels(vec![label("first", "ff0000", false), label("second", "00ff00", true)]);
    h.toggle("first", true);
    h.toggle("second", false);
    assert_eq!(h.shown().pending.len(), 2);
    while !h.shown().pending.is_empty() {
        h.step();
    }
    let labels = h.shown();
    assert!(labels.pending.is_empty());
    assert!(labels.items[0].selected);
    assert!(!labels.items[1].selected);
    assert_eq!(h.mutations, vec![("first".to_string(), true), ("second".to_string(), false)]);
}

#[test]
fn disabling_labels_reverts_queued_toggles_without_sending_mutations() {
    let mut h = Harness::new();
    h.show_labels(vec![label("one", "ff0000", false)]);
    h.toggle("one", true);
    h.configure(Setting::Enabled(Kind::Label, false));
    h.step();
    let labels = h.shown();
    assert!(!labels.items[0].selected);
    assert!(labels.pending.is_empty());
    assert!(labels.error.is_some());
    assert!(h.mutations.is_empty());
}

#[test]
fn changes_during_final_authentication_cannot_submit_a_merge() {
    for change in ["disable", "method", "reviewing", "comments", "cancel", "account"] {
        let mut h = Harness::new();
        h.snapshot = fixture(true);
        h.refresh_pr();
        assert_eq!(h.prs.get("PR_1").unwrap().state, State::Approved);
        h.configure(Setting::Condition(Kind::Merge, Condition::Approved));
        let token = h.start_merge();
        h.tick(token, 0);
        assert!(matches!(h.pending.front(), Some(Pending::CheckMerge(_, _))));
        match change {
            "disable" => h.configure(Setting::Enabled(Kind::Merge, false)),
            "method" => h.configure(Setting::MergeMethod(MergeMethod::Squash)),
            "cancel" => h.request(Request::CancelMerge("PR_1".into())),
            "account" => h.viewer = "another-account",
            "reviewing" => h.change_pr(|pr| pr.state = State::Reviewing),
            _ => h.change_pr(|pr| pr.state = State::Comments),
        }
        // The answer is taken in after the state has changed.
        h.step();
        assert!(h.merges.is_empty(), "merge submitted after {change}");
        assert!(h.coordinator.merges.is_empty());
    }
    let mut h = Harness::new();
    h.snapshot = fixture(true);
    h.refresh_pr();
    h.configure(Setting::Condition(Kind::Merge, Condition::Approved));
    let token = h.start_merge();
    h.tick(token, 0);
    h.step();
    assert_eq!(h.merges.len(), 1);
}

#[test]
fn always_merge_rejects_changed_evidence_in_cache_or_final_snapshot() {
    for cached in [true, false] {
        let mut h = Harness::new();
        h.refresh_pr();
        let token = h.start_merge();
        let original = h.prs.get("PR_1").unwrap().clone();
        let mut changed = original.snapshot.clone();
        changed.threads[0].last_comment_id = "new-comment-on-same-head".into();
        let snapshot = if cached {
            h.prs.insert("PR_1".to_string(), transition(changed, Some(&original), None, 130, 0));
            original.snapshot.clone()
        } else {
            changed
        };
        h.handle(ActionCommand::MergeChecked { pr: "PR_1".into(), token, result: Ok(Box::new(snapshot)) });
        assert!(matches!(h.merge_state(), MergeProgress::Failed(_)));
        assert!(h.coordinator.merges.is_empty());
        h.assert_no_merge();
    }
}

#[test]
fn label_authentication_finishes_before_the_final_worker_validation() {
    for change in ["disable", "stale", "condition", "account", "unchanged"] {
        let mut h = Harness::new();
        h.show_labels(vec![label("one", "ff0000", false)]);
        h.toggle("one", true);
        assert!(matches!(h.pending.front(), Some(Pending::CheckLabel(_, _))));
        match change {
            "disable" => h.configure(Setting::Enabled(Kind::Label, false)),
            "stale" => h.change_pr(|pr| pr.stale = true),
            "condition" => h.configure(Setting::Condition(Kind::Label, Condition::Approved)),
            "account" => h.viewer = "another-account",
            _ => {}
        }
        h.step();
        if change == "unchanged" {
            h.step();
        }
        assert_eq!(!h.mutations.is_empty(), change == "unchanged");
        assert_eq!(h.authentications, 1);
    }
}

#[test]
fn a_failed_authentication_reverts_the_label() {
    let mut h = Harness::new();
    h.show_labels(vec![label("one", "ff0000", false)]);
    h.toggle("one", true);
    h.account = "another-account";
    h.step();
    assert_eq!(h.shown().error.as_deref(), Some("GitHub account changed"));
    assert!(!h.shown().items[0].selected);
    assert!(h.mutations.is_empty());
}

#[test]
fn merge_rejects_unseen_same_head_evidence_before_starting_countdown() {
    let mut h = Harness::new();
    h.refresh_pr();
    let displayed = h.prs.get("PR_1").unwrap().clone();
    let mut changed = displayed.snapshot.clone();
    changed.threads[0].last_comment_id = "posted-while-menu-open".into();
    let current = transition(changed, Some(&displayed), None, 130, 0);
    assert_ne!(current.update_id, displayed.update_id);
    assert_eq!(current.snapshot.head, displayed.snapshot.head);
    h.prs.insert("PR_1".to_string(), current);
    h.request(Request::Merge { pr: "PR_1".into(), head: displayed.snapshot.head, update: displayed.update_id });
    assert!(h.coordinator.merges.is_empty());
    assert!(h.coordinator.state.merges.is_empty());
    assert!(h.coordinator.state.error.as_deref().unwrap().contains("review changed"));
    h.assert_no_merge();
    // With the current evidence a new countdown can start.
    h.start_merge();
    assert!(matches!(h.merge_state(), MergeProgress::Countdown(5)));
    h.request(Request::CancelMerge("PR_1".into()));
}

#[test]
fn label_receipt_follows_pending_or_rejected_action_state() {
    for accepted in [true, false] {
        let mut h = Harness::new();
        if accepted {
            h.show_labels(vec![label("one", "ff0000", false)]);
        }
        h.toggle("one", true);
        assert!(matches!(h.events.last(), Some(None)));
        let state = h.events[h.events.len() - 2].as_ref().expect("Receipt must follow action state");
        if accepted {
            assert!(state.labels.get("PR_1").unwrap().pending.contains_key("one"));
        } else {
            assert!(state.error.is_some());
        }
    }
}

fn catalogue(names: &[&str]) -> LabelCatalogue {
    LabelCatalogue {
        labels: names.iter().map(|name| PrLabel { name: name.to_string(), color: "112233".into() }).collect(),
        fetched_at: NOW,
    }
}

#[test]
fn catalogue_is_shared_persisted_and_refreshed_only_when_due_or_requested() {
    let mut h = Harness::new();
    let mut second = h.prs.get("PR_1").unwrap().clone();
    second.snapshot.id = "PR_2".into();
    h.prs.insert("PR_2".to_string(), second);
    h.change_pr(|pr| pr.snapshot.labels = catalogue(&["bug"]).labels);
    h.sync_labels();
    assert!(h.shown().items[0].selected);
    assert!(!h.shown().catalogue_ready);
    h.refresh_catalogues();
    let token = *h.coordinator.loads.get("owner/repo").unwrap();
    h.request(Request::LoadLabels("PR_2".into()));
    assert_eq!(*h.coordinator.loads.get("owner/repo").unwrap(), token);
    h.step();
    assert!(h.coordinator.loads.is_empty());
    assert!(h.shown().catalogue_ready);
    assert!(h.shown().items[0].selected);
    assert!(!h.coordinator.state.labels.get("PR_2").unwrap().items[0].selected);
    h.refresh_catalogues();
    assert!(h.coordinator.loads.is_empty());
    assert_eq!(h.fetches, 1);
    h.coordinator = Coordinator::new(&h.store);
    assert!(h.coordinator.state.labels.is_empty());
    h.refresh_catalogues();
    let labels = h.shown();
    assert!(labels.catalogue_ready);
    assert!(!labels.loading);
    assert!(labels.items[0].selected);
    assert!(!h.coordinator.state.labels.get("PR_2").unwrap().items[0].selected);
    assert!(h.coordinator.loads.is_empty(), "Restart must reuse a fresh persisted catalogue");
    let mut old = h.coordinator.catalogues.remove("owner/repo").unwrap();
    old.fetched_at -= 901;
    h.coordinator.catalogues.insert("owner/repo".to_string(), old);
    h.refresh_catalogues();
    h.step();
    h.request(Request::LoadLabels("PR_1".into()));
    h.step();
    assert_eq!(h.fetches, 3);
}

fn selected(labels: &Labels, name: &str) -> bool {
    labels.items.iter().find(|l| l.name == name).unwrap().selected
}

#[test]
fn catalogue_refresh_preserves_pending_toggles_and_uses_latest_snapshot_assignments() {
    let mut h = Harness::new();
    h.coordinator.catalogues.insert("owner/repo".to_string(), catalogue(&["bug", "ready"]));
    h.change_pr(|pr| pr.snapshot.labels = catalogue(&["bug"]).labels);
    h.sync_labels();
    let mut labels = h.coordinator.state.labels.remove("PR_1").unwrap();
    labels.items[0].selected = false;
    labels.pending.insert("bug".to_string(), ());
    labels.items[1].selected = true;
    h.coordinator.state.labels.insert("PR_1".to_string(), labels);
    let mut completed = TextMap::new();
    completed.insert("ready".to_string(), true);
    h.coordinator.completed_labels.insert("PR_1".to_string(), completed);
    h.coordinator.loads.insert("owner/repo".to_string(), 42);
    h.handle(ActionCommand::LabelsLoaded {
        repo: "owner/repo".into(),
        token: 42,
        result: Ok(catalogue(&["ready", "new"]).labels),
    });
    let labels = h.shown();
    assert!(!selected(labels, "bug"));
    assert!(selected(labels, "ready"));
    assert!(labels.pending.contains_key("bug"));
    // Once the change is known from a snapshot, later polls decide again.
    h.change_pr(|pr| pr.snapshot.labels = catalogue(&["new", "ready"]).labels);
    h.coordinator.label_saved("PR_1", "ready");
    h.sync_labels();
    assert!(selected(h.shown(), "new"));
    h.change_pr(|pr| pr.snapshot.labels.clear());
    h.sync_labels();
    assert!(!selected(h.shown(), "ready"));
}

#[test]
fn catalogue_errors_keep_cached_labels_and_do_not_hide_mutation_errors() {
    let mut h = Harness::new();
    h.coordinator.catalogues.insert("owner/repo".to_string(), catalogue(&["bug"]));
    h.sync_labels();
    let mut labels = h.coordinator.state.labels.remove("PR_1").unwrap();
    labels.error = Some("Mutation failed".into());
    h.coordinator.state.labels.insert("PR_1".to_string(), labels);
    h.coordinator.loads.insert("owner/repo".to_string(), 1);
    h.handle(ActionCommand::LabelsLoaded { repo: "owner/repo".into(), token: 1, result: Err("Offline".into()) });
    let labels = h.shown();
    assert_eq!(labels.items.len(), 1);
    assert_eq!(labels.catalogue_error.as_deref(), Some("Offline"));
    h.coordinator.loads.insert("owner/repo".to_string(), 2);
    h.handle(ActionCommand::LabelsLoaded {
        repo: "owner/repo".into(),
        token: 2,
        result: Ok(catalogue(&["bug", "ready"]).labels),
    });
    let labels = h.shown();
    assert_eq!(labels.items.len(), 2);
    assert!(labels.catalogue_error.is_none());
    assert_eq!(labels.error.as_deref(), Some("Mutation failed"));
}

#[test]
fn catalogue_cache_and_in_flight_results_are_scoped_to_account() {
    let mut h = Harness::new();
    h.store.save_label_catalogue("test", "OWNER/REPO", &catalogue(&["private"]));
    h.coordinator = Coordinator::new(&h.store);
    h.sync_labels();
    assert_eq!(h.shown().items.len(), 1);
    h.coordinator.loads.insert("owner/repo".to_string(), 1);
    h.viewer = "other";
    h.sync_labels();
    h.handle(ActionCommand::LabelsLoaded {
        repo: "owner/repo".into(),
        token: 1,
        result: Ok(catalogue(&["late"]).labels),
    });
    assert!(h.shown().items.is_empty());
    assert!(h.store.label_catalogues("other").is_empty());
    assert_eq!(h.store.label_catalogues("test").get("owner/repo").unwrap().labels[0].name, "private");
}

#[test]
fn preferences_that_cannot_be_saved_are_not_used() {
    let mut h = Harness::new();
    let before = *h.coordinator.state.preferences.get("owner/repo").unwrap();
    let mut wanted = before;
    wanted.merge_method = MergeMethod::Rebase;
    h.handle(ActionCommand::Configured {
        repo: "owner/repo".into(),
        preferences: wanted,
        result: Err("Disk full".into()),
    });
    assert!(*h.coordinator.state.preferences.get("owner/repo").unwrap() == before);
    assert!(h.coordinator.state.error.is_some());
    h.configure(Setting::MergeMethod(MergeMethod::Rebase));
    assert!(*h.coordinator.state.preferences.get("owner/repo").unwrap() == wanted);
}
