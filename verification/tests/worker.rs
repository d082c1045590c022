use gopher::config::Config;
use gopher::github::discovery::FinalHead;
use gopher::github::PrRef;
use gopher::hotkeys;
use gopher::model::{PrLabel, PullRequest, Snapshot};
use gopher::store::{Store, Tables, VERSION};
use gopher::worker::events::{Batch, Command, Output, UiEvent};
use gopher::worker::fetch::{check_account, confirm, count_labels, needs_discovery, select, to_confirm};
use gopher::worker::monitor::{Monitor, Time, IGNORED_CHECK_INTERVAL};
use gopher::worker::transition;

const MISSING: &str = "Configured gh_path must be an existing absolute executable path";

fn at(clock: u64) -> Time {
    Time { now: 1_000, clock, paused: false }
}

fn open_store() -> Store {
    Store::open(VERSION, Tables::default()).unwrap()
}

/// The tables that a store has written down.
fn written(mut store: Store) -> Tables {
    let mut tables = Tables::default();
    for change in store.take_changes() {
        tables.apply(&change);
    }
    tables
}

fn monitor(config: Config, store: Store) -> Monitor {
    let store = Store::open(VERSION, written(store)).unwrap();
    Monitor::new(false, config, store, IGNORED_CHECK_INTERVAL, 0)
}

fn shown(monitor: &mut Monitor) -> Vec<UiEvent> {
    let mut events = Vec::new();
    for output in monitor.take_outputs() {
        if let Output::Ui(event) = output {
            events.push(event);
        }
    }
    events
}

fn reference(snapshot: &Snapshot) -> PrRef {
    PrRef { id: snapshot.id.clone(), repo: snapshot.repo.clone(), number: snapshot.number }
}

fn batch(viewer: &str, snapshot: &Snapshot) -> Batch {
    Batch {
        viewer: viewer.into(),
        discovered: true,
        references: vec![reference(snapshot)],
        results: vec![(snapshot.id.clone(), Ok(snapshot.clone()))],
    }
}

#[test]
fn missing_cli_notifies_once_and_worker_shuts_down_cleanly() {
    let mut worker = monitor(Config::default(), open_store());
    let _ = worker.take_outputs();
    assert!(worker.poll_due(0));
    worker.step(Command::Poll, at(0));
    assert!(shown(&mut worker).iter().any(|e| matches!(e, UiEvent::Updated { loading: true, .. })));
    worker.step(Command::PollComplete(Err(MISSING.into())), at(1));
    let events = shown(&mut worker);
    let notices: Vec<_> = events
        .iter()
        .filter_map(|e| match e {
            UiEvent::Notify { body, .. } => Some(body.clone()),
            _ => None,
        })
        .collect();
    assert_eq!(notices, vec![MISSING.to_string()]);
    match events.last().unwrap() {
        UiEvent::Updated { error: Some(error), loading: false, .. } => assert_eq!(error, MISSING),
        _ => panic!("Missing error"),
    }
    worker.step(Command::PollComplete(Err(MISSING.into())), at(2));
    let events = shown(&mut worker);
    assert!(
        !events.iter().any(|e| matches!(e, UiEvent::Notify { .. })),
        "An unchanged missing-CLI error must not emit another notification"
    );
    assert!(matches!(events.last(), Some(UiEvent::Updated { error: Some(_), .. })));
    worker.step(Command::Shutdown, at(3));
    assert!(matches!(shown(&mut worker).last(), Some(UiEvent::Stopped)));
    assert!(!worker.poll_due(u64::MAX));
}

#[test]
fn notification_actions_acknowledge_only_their_update_and_open_waits_for_browser() {
    let mut store = open_store();
    let mut pr = transition(
        Snapshot { id: "PR_1".into(), url: "https://github.com/owner/repo/pull/1".into(), ..Default::default() },
        None,
        None,
        100,
        0,
    );
    let old_update = pr.update_id.clone();
    let old_notice = store.notification(&pr).unwrap();
    pr.update_id = "new-update".into();
    let new_notice = store.notification(&pr).unwrap();
    store.save(&pr);
    let mut worker = monitor(Config::default(), store);
    let _ = worker.take_outputs();
    worker.step(Command::NotificationAction { id: old_notice.clone(), open: true, reveal: false }, at(1));
    let events = shown(&mut worker);
    assert!(matches!(&events[0], UiEvent::Open { url, update, .. } if *url == pr.snapshot.url && *update == old_update));
    assert!(matches!(events.last(), Some(UiEvent::Updated { prs, .. }) if prs[0].acknowledged.is_none()));
    for (notice, expected) in [(old_notice, None), (new_notice, Some(pr.update_id.clone()))] {
        worker.step(Command::NotificationAction { id: notice.clone(), open: false, reveal: false }, at(2));
        let events = shown(&mut worker);
        assert!(matches!(&events[0], UiEvent::DismissNotifications(ids) if *ids == vec![notice]));
        assert!(!events.iter().any(|e| matches!(e, UiEvent::Open { .. })));
        assert!(matches!(events.last(), Some(UiEvent::Updated { prs, .. }) if prs[0].acknowledged == expected));
    }
    assert_eq!(worker.store.load()[0].acknowledged, Some(pr.update_id));
}

#[test]
fn discovery_omissions_keep_polling_known_prs_only_for_the_same_account() {
    let config = Config::default();
    let known = || vec![PrRef { id: "PR_1".into(), repo: "owner/repo".into(), number: 1 }];
    assert!(needs_discovery(true, Some("test"), "test"));
    let kept = select(Some(vec![]), known(), true, &vec![], &config);
    assert_eq!(kept.len(), 1);

    // A closed result still reaches the worker, which removes the pull request.
    let snapshot =
        Snapshot { id: "PR_1".into(), repo: "owner/repo".into(), number: 1, open: true, ..Default::default() };
    let mut worker = monitor(config, open_store());
    worker.step(Command::PollComplete(Ok(batch("test", &snapshot))), at(0));
    assert_eq!(worker.prs.len(), 1);
    let closed = Snapshot { open: false, ..snapshot };
    worker.step(Command::PollComplete(Ok(batch("test", &closed))), at(1));
    assert!(worker.prs.is_empty());

    let config = Config::default();
    for (viewer, ignored) in [("different-account", vec![]), ("test", vec!["PR_1".to_string()])] {
        assert!(needs_discovery(true, Some(viewer), "test"));
        assert!(select(Some(vec![]), known(), viewer == "test", &ignored, &config).is_empty());
    }
    assert!(needs_discovery(false, Some("different-account"), "test"));
    assert!(needs_discovery(false, None, "test"));
    assert!(!needs_discovery(false, Some("test"), "test"));
}

#[test]
fn ignored_pr_cannot_reappear_from_an_in_flight_poll() {
    let snapshot = Snapshot {
        id: "PR_ignored".into(),
        repo: "owner/repo".into(),
        number: 1,
        head: "abc".into(),
        open: true,
        ..Default::default()
    };
    let mut store = open_store();
    let pr = transition(snapshot.clone(), None, None, 100, 0);
    store.save(&pr);
    let notification = store.notification(&pr).unwrap();
    let mut worker = monitor(Config::default(), store);
    worker.step(Command::PollComplete(Err(MISSING.into())), at(0));
    let _ = worker.take_outputs();
    worker.step(Command::Ignore(snapshot.id.clone()), at(1));
    let events = shown(&mut worker);
    assert!(matches!(&events[0], UiEvent::DismissNotifications(ids) if *ids == vec![notification.clone()]));
    assert!(matches!(events.last(), Some(UiEvent::Updated { prs, .. }) if prs.is_empty()));
    worker.step(Command::PollComplete(Ok(batch("viewer", &snapshot))), at(2));
    assert!(matches!(shown(&mut worker).last(), Some(UiEvent::Updated { prs, error: None, .. }) if prs.is_empty()));
    worker.step(Command::NotificationAction { id: notification, open: false, reveal: false }, at(3));
    assert!(matches!(shown(&mut worker).last(), Some(UiEvent::Updated { prs, .. }) if prs.is_empty()));
    assert!(worker.store.load().is_empty());
    assert!(worker.store.ignored().contains(&snapshot.id));
}

#[test]
fn restore_during_poll_discards_old_result_and_requests_discovery() {
    let config = Config { notifications: false, ..Default::default() };
    let snapshot = Snapshot {
        id: "PR_restore".into(),
        repo: "owner/repo".into(),
        number: 42,
        open: true,
        head: "current".into(),
        ..Default::default()
    };
    let mut store = open_store();
    store.save(&transition(snapshot.clone(), None, None, 100, 0));
    let mut worker = monitor(config, store);
    worker.step(Command::Poll, at(0));
    let _ = worker.take_outputs();
    // The request is under way, so both commands make its result void.
    worker.step(Command::Ignore(snapshot.id.clone()), at(1));
    let _ = worker.take_outputs();
    worker.step(Command::Restore(snapshot.id.clone()), at(2));
    let events = shown(&mut worker);
    assert!(events.iter().any(|e| matches!(e, UiEvent::IgnoredUpdated { prs, .. } if prs.is_empty())));
    assert!(matches!(events.last(), Some(UiEvent::Updated { prs, .. }) if prs.is_empty()));
    worker.step(Command::PollComplete(Ok(batch("viewer", &snapshot))), at(3));
    assert!(matches!(shown(&mut worker).last(), Some(UiEvent::Updated { prs, .. }) if prs.is_empty()));
    // The next poll is due at once although a poll has just ended, and it discovers.
    assert!(worker.poll_due(3));
    worker.step(Command::Poll, at(3));
    let outputs = worker.take_outputs();
    assert!(outputs.iter().any(|o| matches!(o, Output::Poll { discover: true, .. })));
    assert!(outputs.iter().any(|o| matches!(o, Output::Ui(UiEvent::Updated { loading: true, .. }))));
    worker.step(Command::PollComplete(Ok(batch("viewer", &snapshot))), at(4));
    assert!(
        matches!(shown(&mut worker).last(), Some(UiEvent::Updated { prs, loading: false, .. }) if prs.len() == 1)
    );
    assert!(!worker.poll_due(5));
    assert!(!worker.store.ignored().contains(&snapshot.id));
    assert!(worker.store.load_ignored().is_empty());
}

#[test]
fn ignored_checks_repeat_without_opening_the_view_or_refreshing_active_prs() {
    let mut store = open_store();
    let pr = PullRequest::unreviewed(Snapshot {
        id: "ignored".into(),
        number: 42,
        repo: "owner/repo".into(),
        open: true,
        ..Default::default()
    });
    store.save(&pr);
    store.ignore(&pr.snapshot.id);
    let config = Config { poll_seconds: 3600, notifications: false, ..Default::default() };
    let store = Store::open(VERSION, written(store)).unwrap();
    let mut worker = Monitor::new(false, config, store, 100, 0);
    worker.step(Command::Poll, at(0));
    worker.step(
        Command::PollComplete(Ok(Batch {
            viewer: "test".into(),
            discovered: true,
            references: vec![],
            results: vec![],
        })),
        at(0),
    );
    let _ = worker.take_outputs();
    let mut polls = 0;
    for (clock, open) in [(0, false), (100, true)] {
        assert!(worker.lookup_due(clock));
        worker.step(Command::CheckIgnored, at(clock));
        let outputs = worker.take_outputs();
        assert!(outputs.iter().any(|o| matches!(o, Output::LookUp(ids) if *ids == vec!["ignored".to_string()])));
        polls += outputs.iter().filter(|o| matches!(o, Output::Poll { .. })).count();
        assert!(!worker.lookup_due(clock));
        let found = Snapshot { open, title: "Test".into(), ..pr.snapshot.clone() };
        worker.step(Command::IgnoredDetailsLoaded(Ok(vec![found])), at(clock));
        let shown_prs: Vec<_> = shown(&mut worker)
            .into_iter()
            .filter_map(|e| match e {
                UiEvent::IgnoredUpdated { prs, error, loading: false } => {
                    assert!(error.is_none());
                    Some(prs)
                }
                _ => None,
            })
            .collect();
        let last = shown_prs.last().unwrap();
        if open {
            assert_eq!(last.len(), 1);
            assert_eq!(last[0].snapshot.id, "ignored");
        } else {
            assert!(last.is_empty());
        }
    }
    assert_eq!(polls, 0);
    assert!(!worker.poll_due(100));
    worker.step(Command::Shutdown, at(101));
    assert!(matches!(shown(&mut worker).last(), Some(UiEvent::Stopped)));
    assert!(worker.store.ignored().contains(&"ignored".to_string()));
}

#[test]
fn a_failed_lookup_is_shown_and_tried_again_when_the_view_is_opened() {
    let mut store = open_store();
    store.ignore("ignored");
    let mut worker = monitor(Config::default(), store);
    worker.step(Command::CheckIgnored, at(0));
    let _ = worker.take_outputs();
    worker.step(Command::IgnoredDetailsLoaded(Err("Offline".into())), at(1));
    assert!(shown(&mut worker)
        .iter()
        .any(|e| matches!(e, UiEvent::IgnoredUpdated { error: Some(error), .. } if error == "Offline")));
    assert!(!worker.lookup_due(2));
    worker.step(Command::ShowIgnored, at(2));
    assert!(worker.lookup_due(2));
}

#[test]
fn an_update_is_announced_once_and_a_dismissal_outlives_its_delivery() {
    let config = Config { settle_seconds: 0, ..Default::default() };
    let mut worker = monitor(config, open_store());
    let mut snapshot = Snapshot {
        id: "PR_1".into(),
        repo: "owner/repo".into(),
        number: 7,
        title: "Change".into(),
        url: "https://github.com/owner/repo/pull/7".into(),
        head: "head".into(),
        open: true,
        ..Default::default()
    };
    snapshot.reviews.push(gopher::model::Review {
        id: "review-1".into(),
        author: "cubic-dev-ai[bot]".into(),
        body: "0 issues found".into(),
        state: "COMMENTED".into(),
        commit: "head".into(),
        submitted_at: "2026-09-07T16:30:00Z".into(),
    });
    worker.step(Command::PollComplete(Ok(batch("me", &snapshot))), at(0));
    let notices: Vec<_> = shown(&mut worker)
        .into_iter()
        .filter_map(|e| match e {
            UiEvent::Notify { review: true, id, .. } => Some(id),
            _ => None,
        })
        .collect();
    assert_eq!(notices.len(), 1);
    worker.step(Command::PollComplete(Ok(batch("me", &snapshot))), at(1));
    assert!(!shown(&mut worker).iter().any(|e| matches!(e, UiEvent::Notify { .. })));
    let update = worker.prs.get("PR_1").unwrap().update_id.clone();
    worker.step(Command::Acknowledge { pr: "PR_1".into(), update, checked: true }, at(2));
    assert!(shown(&mut worker).iter().any(|e| matches!(e, UiEvent::DismissNotifications(ids) if *ids == notices)));
    worker.step(Command::NotificationDelivered(notices[0].clone()), at(3));
    assert!(shown(&mut worker).iter().any(|e| matches!(e, UiEvent::DismissNotifications(ids) if *ids == notices)));
    worker.step(Command::PollComplete(Ok(batch("me", &snapshot))), at(4));
    assert!(!shown(&mut worker).iter().any(|e| matches!(e, UiEvent::Notify { .. })));
}

#[test]
fn a_notification_that_was_not_delivered_is_announced_again() {
    let config = Config { settle_seconds: 0, ..Default::default() };
    let mut worker = monitor(config, open_store());
    let mut snapshot = Snapshot { id: "PR_1".into(), head: "head".into(), open: true, ..Default::default() };
    snapshot.reviews.push(gopher::model::Review {
        author: "cubic-dev-ai[bot]".into(),
        body: "0 issues found".into(),
        state: "COMMENTED".into(),
        commit: "head".into(),
        ..Default::default()
    });
    worker.step(Command::PollComplete(Ok(batch("me", &snapshot))), at(0));
    let first: Vec<_> = shown(&mut worker)
        .into_iter()
        .filter_map(|e| match e {
            UiEvent::Notify { id, .. } => Some(id),
            _ => None,
        })
        .collect();
    assert_eq!(first.len(), 1);
    worker.step(Command::NotificationFailed(first[0].clone()), at(1));
    let _ = worker.take_outputs();
    worker.step(Command::PollComplete(Ok(batch("me", &snapshot))), at(2));
    assert!(shown(&mut worker).iter().any(|e| matches!(e, UiEvent::Notify { id, .. } if *id == first[0])));
}

#[test]
fn failed_polls_wait_longer_and_make_everything_stale() {
    let mut worker = monitor(Config { notifications: false, ..Default::default() }, open_store());
    let snapshot = Snapshot { id: "PR_1".into(), open: true, ..Default::default() };
    worker.step(Command::PollComplete(Ok(batch("me", &snapshot))), at(0));
    assert!(!worker.prs.get("PR_1").unwrap().stale);
    assert!(!worker.poll_due(29_999));
    assert!(worker.poll_due(30_000));
    let mut clock = 30_000;
    let mut waits = Vec::new();
    for _ in 0..7 {
        worker.step(Command::PollComplete(Err("Offline".into())), at(clock));
        assert!(worker.prs.get("PR_1").unwrap().stale);
        waits.push((worker.deadline - clock) / 1000);
        clock = worker.deadline;
    }
    assert_eq!(waits[0], 60);
    assert!(waits.windows(2).all(|w| w[0] <= w[1]));
    assert_eq!(*waits.last().unwrap(), 900);
}

#[test]
fn another_account_starts_empty() {
    let mut worker = monitor(Config { notifications: false, ..Default::default() }, open_store());
    let first = Snapshot { id: "PR_1".into(), open: true, ..Default::default() };
    let second = Snapshot { id: "PR_2".into(), open: true, ..Default::default() };
    worker.step(Command::PollComplete(Ok(batch("alice", &first))), at(0));
    worker.step(Command::PollComplete(Ok(batch("bob", &second))), at(1));
    assert!(worker.prs.get("PR_1").is_none());
    assert!(worker.prs.get("PR_2").is_some());
    assert_eq!(worker.viewer.as_deref(), Some("bob"));
}

#[test]
fn a_label_change_is_known_before_the_next_poll() {
    let mut worker = monitor(Config { notifications: false, ..Default::default() }, open_store());
    let snapshot = Snapshot { id: "PR_1".into(), open: true, ..Default::default() };
    worker.step(Command::PollComplete(Ok(batch("me", &snapshot))), at(0));
    let label = || PrLabel { name: "bug".into(), color: "ff0000".into() };
    worker.step(
        Command::LabelSaved { pr: "PR_1".into(), viewer: "other".into(), label: label(), selected: true },
        at(1),
    );
    assert!(worker.prs.get("PR_1").unwrap().snapshot.labels.is_empty());
    worker.step(
        Command::LabelSaved { pr: "PR_1".into(), viewer: "me".into(), label: label(), selected: true },
        at(2),
    );
    assert_eq!(worker.prs.get("PR_1").unwrap().snapshot.labels, vec![label()]);
    assert!(worker.poll_due(2));
    worker.step(
        Command::LabelSaved { pr: "PR_1".into(), viewer: "me".into(), label: label(), selected: false },
        at(3),
    );
    assert!(worker.prs.get("PR_1").unwrap().snapshot.labels.is_empty());
}

#[test]
fn shortcuts_are_written_before_they_are_said_to_be_saved() {
    let mut worker = monitor(Config::default(), open_store());
    let _ = worker.take_outputs();
    let preferences = hotkeys::Preferences::default();
    worker.step(Command::SaveHotkeys(preferences), at(0));
    let outputs = worker.take_outputs();
    assert!(outputs.iter().any(|o| matches!(o, Output::WriteHotkeys(_))));
    assert!(!outputs.iter().any(|o| matches!(o, Output::Ui(UiEvent::HotkeysSaved(_)))));
    worker.step(
        Command::HotkeysWritten { preferences: hotkeys::Preferences::default(), result: Err("Disk full".into()) },
        at(1),
    );
    assert!(shown(&mut worker).iter().any(|e| matches!(e, UiEvent::HotkeysSaved(Err(error)) if error == "Disk full")));
    worker.step(
        Command::HotkeysWritten { preferences: hotkeys::Preferences::default(), result: Ok(()) },
        at(2),
    );
    assert!(shown(&mut worker).iter().any(|e| matches!(e, UiEvent::HotkeysSaved(Ok(())))));
}

#[test]
fn a_notification_click_can_reveal_its_pr() {
    let mut store = open_store();
    let pr = transition(Snapshot { id: "PR_1".into(), ..Default::default() }, None, None, 100, 0);
    let notice = store.notification(&pr).unwrap();
    store.save(&pr);
    let mut worker = monitor(Config::default(), store);
    let _ = worker.take_outputs();
    worker.step(Command::NotificationAction { id: notice, open: false, reveal: true }, at(0));
    assert!(shown(&mut worker)
        .iter()
        .any(|e| matches!(e, UiEvent::ShowPopover { pr: Some(id) } if id == "PR_1")));
    worker.step(Command::NotificationAction { id: "unknown".into(), open: false, reveal: true }, at(1));
    assert!(!shown(&mut worker).iter().any(|e| matches!(e, UiEvent::ShowPopover { .. })));
}

#[test]
fn only_results_that_are_current_count() {
    let snapshot = |id: &str, open: bool| Snapshot { id: id.into(), head: "head".into(), open, ..Default::default() };
    let results = vec![
        ("same".to_string(), Ok(snapshot("same", true))),
        ("moved".to_string(), Ok(snapshot("moved", true))),
        ("closed".to_string(), Ok(snapshot("closed", true))),
        ("gone".to_string(), Ok(snapshot("gone", false))),
        ("failed".to_string(), Err("Offline".to_string())),
    ];
    assert_eq!(to_confirm(&results), vec!["same", "moved", "closed"]);
    let heads = vec![
        FinalHead { id: "same".into(), head: "head".into(), open: true },
        FinalHead { id: "moved".into(), head: "other".into(), open: true },
        FinalHead { id: "closed".into(), head: "head".into(), open: false },
    ];
    let confirmed = confirm(results, &heads);
    assert!(confirmed[0].1.is_ok());
    for i in [1, 2] {
        assert_eq!(confirmed[i].1.as_ref().unwrap_err(), "PR changed while fetching checks; retrying next poll");
    }
    assert!(confirmed[3].1.is_ok());
    assert_eq!(confirmed[4].1.as_ref().unwrap_err(), "Offline");
}

#[test]
fn labels_count_only_for_an_account_that_stayed() {
    let own = |login: &str| check_account(Ok(login.into()), "alice", "GitHub account changed");
    assert_eq!(own("alice"), Ok(()));
    assert_eq!(own("bob"), Err("GitHub account changed".to_string()));
    let offline = check_account(Err("offline".into()), "alice", "GitHub account changed");
    assert_eq!(offline, Err("offline".to_string()));
    let labels = || Ok(vec![PrLabel { name: "bug".into(), color: "ff0000".into() }]);
    assert_eq!(count_labels(&own("alice"), &own("alice"), labels()).unwrap()[0].name, "bug");
    assert_eq!(count_labels(&own("alice"), &own("bob"), labels()).unwrap_err(), "GitHub account changed");
    assert_eq!(count_labels(&offline, &own("bob"), labels()).unwrap_err(), "offline");
    assert_eq!(count_labels(&own("alice"), &own("alice"), Err("no labels".into())).unwrap_err(), "no labels");
}
