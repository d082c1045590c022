use gopher::actions::{ActionState, Condition, Label, Labels, MergeProgress, Preferences, Request, Rule};
use gopher::hotkeys::{HotkeyAction, Preferences as Shortcuts};
use gopher::macos::desk::{AppEvent, Around, Desk, Output, NOT_PERMITTED, WORKER_STOPPED};
use gopher::macos::keyboard::Keyboard;
use gopher::macos::menu::{inbox_menu, Item};
use gopher::macos::popover::inbox::{count_updates, Gesture, News, ReviewPopover};
use gopher::macos::popover::Press;
use gopher::macos::updates::State as UpdateState;
use gopher::macos::{Action, MenuBarState};
use gopher::model::{PullRequest, Snapshot, State};
use gopher::text_map::TextMap;
use gopher::worker::events::{Command, UiEvent};

fn pr(id: &str, number: u64, state: State) -> PullRequest {
    let mut pr = PullRequest::unreviewed(Snapshot {
        id: id.into(),
        repo: "owner/repo".into(),
        number,
        title: "A change".into(),
        url: format!("https://github.com/owner/repo/pull/{number}"),
        head: "head".into(),
        open: true,
        ..Default::default()
    });
    pr.state = state;
    pr.stale = false;
    pr.update_id = format!("update-{id}");
    pr
}

struct App {
    desk: Desk,
    updates: UpdateState,
    times: TextMap<String>,
    clock: u64,
}

impl App {
    fn new(bundled: bool) -> App {
        let mut app = App {
            desk: Desk::new(false, bundled, Keyboard::new(false, Ok(()), true)),
            updates: UpdateState::default(),
            times: TextMap::new(),
            clock: 0,
        };
        app.step(AppEvent::Started);
        app
    }

    fn step(&mut self, event: AppEvent) -> Vec<Output> {
        let around = Around {
            focused: true,
            at_login: false,
            updates: &self.updates,
            heading: "Updates · Gopher 1.0",
            now: 100,
            clock: self.clock,
            times: &self.times,
        };
        self.desk.step(event, &around);
        self.desk.take_outputs()
    }

    fn show(&mut self, prs: Vec<PullRequest>) -> Vec<Output> {
        self.step(AppEvent::Worker(UiEvent::Updated { prs, error: None, loading: false }))
    }
}

fn exits(outputs: &[Output]) -> bool {
    outputs.iter().any(|o| matches!(o, Output::Exit))
}

#[test]
fn the_application_ends_after_its_worker() {
    let mut app = App::new(true);
    let outputs = app.step(AppEvent::Menu("unknown".into()));
    assert!(!exits(&outputs));
    let outputs = app.step(AppEvent::Pressed(Press::PopoverAction(Action::Quit)));
    assert!(outputs.iter().any(|o| matches!(o, Output::Log(reason) if reason == "quit")));
    assert!(outputs.iter().any(|o| matches!(o, Output::Send(Command::Shutdown))));
    assert!(!exits(&outputs));
    // Nothing else counts any more.
    assert!(app.step(AppEvent::TogglePopover).is_empty());
    assert!(app.step(AppEvent::Pressed(Press::PopoverAction(Action::Refresh))).is_empty());
    assert!(exits(&app.step(AppEvent::Worker(UiEvent::Stopped))));
    assert_eq!(app.desk.exit_reason, "quit");
}

#[test]
fn a_worker_that_stops_by_itself_is_reported() {
    let mut app = App::new(true);
    assert!(!exits(&app.step(AppEvent::Worker(UiEvent::Stopped))));
    assert_eq!(app.desk.ui_error.as_deref(), Some(WORKER_STOPPED));
    assert!(exits(&app.step(AppEvent::Shutdown("sigterm".into()))));
    assert_eq!(app.desk.exit_reason, "sigterm");
}

fn notify(app: &mut App, id: &str) -> Vec<Output> {
    app.step(AppEvent::Worker(UiEvent::Notify {
        review: true,
        id: id.into(),
        title: "Title".into(),
        body: "Body".into(),
    }))
}

#[test]
fn notifications_wait_for_the_permission() {
    let mut app = App::new(true);
    for id in ["one", "two", "three"] {
        assert!(!notify(&mut app, id).iter().any(|o| matches!(o, Output::Deliver(_))));
    }
    let outputs = app.step(AppEvent::Worker(UiEvent::DismissNotifications(vec!["two".into()])));
    assert!(outputs.iter().any(|o| matches!(o, Output::Send(Command::NotificationFailed(id)) if id == "two")));
    assert!(outputs.iter().any(|o| matches!(o, Output::Withdraw(ids) if *ids == vec!["two".to_string()])));
    let delivered: Vec<String> = app
        .step(AppEvent::Permission(true))
        .into_iter()
        .filter_map(|o| match o {
            Output::Deliver(announcement) => Some(announcement.id),
            _ => None,
        })
        .collect();
    assert_eq!(delivered, vec!["one".to_string(), "three".to_string()]);
    assert!(notify(&mut app, "four").iter().any(|o| matches!(o, Output::Deliver(a) if a.id == "four" && a.review)));
}

#[test]
fn refused_notifications_have_failed() {
    let mut app = App::new(true);
    notify(&mut app, "one");
    let outputs = app.step(AppEvent::Permission(false));
    assert!(outputs.iter().any(|o| matches!(o, Output::Send(Command::NotificationFailed(id)) if id == "one")));
    assert_eq!(app.desk.ui_error.as_deref(), Some(NOT_PERMITTED));
    assert!(notify(&mut app, "two")
        .iter()
        .any(|o| matches!(o, Output::Send(Command::NotificationFailed(id)) if id == "two")));
    app.step(AppEvent::Permission(true));
    assert!(app.desk.ui_error.is_none());
    // Without a package nothing can be shown, and nothing waits.
    let mut app = App::new(false);
    assert!(notify(&mut app, "one")
        .iter()
        .any(|o| matches!(o, Output::Send(Command::NotificationFailed(id)) if id == "one")));
    assert!(app.desk.pending.is_empty());
}

#[test]
fn only_what_the_browser_has_opened_is_acknowledged() {
    let mut app = App::new(true);
    let open = |url: &str| {
        AppEvent::Pressed(Press::PopoverAction(Action::Open {
            url: url.into(),
            pr: "PR_1".into(),
            update: "update-1".into(),
        }))
    };
    let outputs = app.step(open("https://github.com/owner/repo/pull/1"));
    assert!(outputs.iter().any(|o| matches!(o, Output::OpenUrl { pr, .. } if pr == "PR_1")));
    assert!(!outputs.iter().any(|o| matches!(o, Output::Send(_))));
    let outputs = app.step(AppEvent::Opened { pr: "PR_1".into(), update: "update-1".into(), error: None, listening: true });
    assert!(outputs
        .iter()
        .any(|o| matches!(o, Output::Send(Command::Acknowledge { update, checked: true, .. }) if update == "update-1")));
    let outputs = app.step(AppEvent::Opened {
        pr: "PR_1".into(),
        update: "update-1".into(),
        error: Some("Browser failed".into()),
        listening: true,
    });
    assert!(!outputs.iter().any(|o| matches!(o, Output::Send(_))));
    assert_eq!(app.desk.ui_error.as_deref(), Some("Browser failed"));
    let outputs = app.step(open("https://example.com/"));
    assert!(!outputs.iter().any(|o| matches!(o, Output::OpenUrl { .. })));
    assert_eq!(app.desk.ui_error.as_deref(), Some("Refusing an invalid GitHub PR URL"));
}

#[test]
fn opening_labels_acknowledges_the_shown_update() {
    let mut app = App::new(true);
    app.show(vec![pr("PR_1", 1, State::Comments)]);
    let outputs = app.step(AppEvent::Pressed(Press::PopoverAction(Action::Labels("PR_1".into()))));
    assert!(outputs.iter().any(
        |o| matches!(o, Output::Send(Command::Acknowledge { pr, update, checked: true }) if pr == "PR_1" && update == "update-PR_1")
    ));
    assert!(app.desk.popover.detail.is_some());
    let outputs = app.step(AppEvent::Pressed(Press::PopoverAction(Action::Labels("unknown".into()))));
    assert!(!outputs.iter().any(|o| matches!(o, Output::Send(_))));
}

#[test]
fn a_notification_leads_to_its_pr_which_flashes() {
    let mut app = App::new(true);
    app.show(vec![pr("PR_1", 1, State::Comments), pr("PR_2", 2, State::Comments)]);
    app.step(AppEvent::Pressed(Press::PopoverAction(Action::ShowIgnored)));
    assert!(app.desk.popover.showing_ignored);
    app.clock = 1_000;
    let outputs = app.step(AppEvent::Worker(UiEvent::ShowPopover { pr: Some("PR_2".into()) }));
    assert!(app.desk.popover.visible);
    assert!(!app.desk.popover.showing_ignored);
    assert_eq!(app.desk.popover.active.navigation.selected.as_deref(), Some("PR_2"));
    assert_eq!(app.desk.popover.tint, Some(true));
    assert!(outputs.iter().any(|o| matches!(o, Output::WakeAt(300_001_000))));
    app.clock = 300_001_000;
    app.step(AppEvent::RefreshPopover);
    assert_eq!(app.desk.popover.tint, Some(false));
    app.clock = 60_000_000_000;
    app.step(AppEvent::RefreshPopover);
    assert_eq!(app.desk.popover.tint, None);
}

#[test]
fn the_menu_bar_counts_prs_and_updates() {
    let mut app = App::new(true);
    let mut seen = pr("PR_2", 2, State::Comments);
    seen.acknowledged = Some(seen.update_id.clone());
    let prs = vec![pr("PR_1", 1, State::Approved), seen];
    assert_eq!(count_updates(&prs), 1);
    let outputs = app.show(prs);
    match outputs.last() {
        Some(Output::Bar { state, failed, tooltip, .. }) => {
            assert_eq!(*state, MenuBarState::Review(State::Approved));
            assert!(!failed);
            assert_eq!(tooltip, "Gopher · 2 PRs · 1 updates");
        }
        _ => panic!("The menu bar must follow"),
    }
    let outputs = app.step(AppEvent::Worker(UiEvent::Updated {
        prs: vec![],
        error: Some("Offline".into()),
        loading: false,
    }));
    assert!(matches!(
        outputs.last(),
        Some(Output::Bar { state: MenuBarState::Review(State::Unknown), failed: true, .. })
    ));
}

// ---------------------------------------------------------------- the inbox

struct Inbox {
    popover: ReviewPopover,
    times: TextMap<String>,
}

impl Inbox {
    fn new() -> Inbox {
        Inbox { popover: ReviewPopover::new(false), times: TextMap::new() }
    }

    fn draw(&mut self, prs: &Vec<PullRequest>, error: Option<&str>) {
        let news = News {
            prs,
            error,
            bundled: true,
            at_login: false,
            loading: false,
            now: 100,
            times: &self.times,
        };
        self.popover.update(&news);
    }
}

#[test]
fn the_inbox_shows_prs_below_their_repositories() {
    let mut inbox = Inbox::new();
    inbox.draw(&vec![], None);
    assert!(inbox.popover.screen.empty.is_some());
    let mut other = pr("PR_3", 3, State::Approved);
    other.snapshot.repo = "owner/zebra".into();
    let prs = vec![other, pr("PR_1", 1, State::Comments), pr("PR_2", 2, State::Reviewing)];
    inbox.draw(&prs, Some("Offline"));
    let screen = &inbox.popover.screen;
    assert!(screen.empty.is_none());
    assert_eq!(screen.banner.as_deref(), Some("Offline"));
    assert_eq!(screen.summary, "3 open PRs · 2 updates");
    assert_eq!(screen.lines.len(), 3);
    assert_eq!(screen.lines[0].heading.as_deref(), Some("repo • owner"));
    assert!(screen.lines[1].heading.is_none());
    assert_eq!(screen.lines[2].heading.as_deref(), Some("zebra • owner"));
    assert!(screen.lines[2].divider);
    assert_eq!(inbox.popover.rows.len(), 3);
}

#[test]
fn an_open_menu_holds_the_inbox() {
    let mut inbox = Inbox::new();
    inbox.draw(&vec![pr("PR_1", 1, State::Comments)], None);
    inbox.popover.row_menu("PR_1", true);
    inbox.draw(&vec![], None);
    assert_eq!(inbox.popover.rows.len(), 1);
    inbox.popover.row_menu("PR_1", false);
    assert!(inbox.popover.take_gestures().iter().any(|g| matches!(g, Gesture::Refresh)));
    inbox.draw(&vec![], None);
    assert!(inbox.popover.rows.is_empty());
}

#[test]
fn a_label_click_holds_the_panel_until_it_is_handled() {
    let mut inbox = Inbox::new();
    let pr = pr("PR_1", 1, State::Comments);
    let mut state = ActionState::default();
    state.labels.insert(
        "PR_1".to_string(),
        Labels {
            items: vec![Label { name: "bug".into(), color: "ff0000".into(), selected: false }],
            ..Default::default()
        },
    );
    inbox.popover.action_state = state;
    inbox.popover.show();
    inbox.popover.show_labels(&pr);
    inbox.popover.press(
        Press::PrAction(Request::Label { pr: "PR_1".into(), name: "bug".into(), selected: false }),
        true,
    );
    let gestures = inbox.popover.take_gestures();
    assert!(gestures.iter().any(|g| matches!(g, Gesture::Send(Request::Label { selected: true, .. }))));
    assert!(inbox.popover.labels_saving());
    inbox.popover.back();
    inbox.popover.escape();
    assert!(inbox.popover.detail.is_some());
    inbox.popover.label_request_handled();
    assert!(!inbox.popover.labels_saving());
    inbox.popover.back();
    assert!(inbox.popover.detail.is_none());
}

#[test]
fn a_merge_acknowledges_the_shown_update() {
    let mut inbox = Inbox::new();
    inbox.popover.press(
        Press::PrAction(Request::Merge { pr: "PR_1".into(), head: "head".into(), update: "update-1".into() }),
        true,
    );
    let gestures = inbox.popover.take_gestures();
    assert!(matches!(gestures[0], Gesture::Send(Request::Merge { .. })));
    assert!(matches!(&gestures[1], Gesture::Acknowledge { pr, update } if pr == "PR_1" && update == "update-1"));
}

#[test]
fn shortcuts_select_prs_and_use_their_controls() {
    let mut inbox = Inbox::new();
    let prs = vec![pr("PR_1", 1, State::Comments), pr("PR_2", 2, State::Comments)];
    inbox.draw(&prs, None);
    assert!(!inbox.popover.shortcut(HotkeyAction::Next), "A hidden inbox takes no shortcuts");
    inbox.popover.show();
    inbox.popover.take_gestures();
    assert!(inbox.popover.shortcut(HotkeyAction::Next));
    inbox.draw(&prs, None);
    assert_eq!(inbox.popover.screen.selected.as_deref(), Some("PR_1"));
    inbox.popover.take_gestures();
    inbox.popover.shortcut(HotkeyAction::OpenPr);
    assert!(inbox.popover.take_gestures().iter().any(
        |g| matches!(g, Gesture::Click(Press::PopoverAction(Action::Open { update, .. })) if update == "update-PR_1")
    ));
    inbox.popover.shortcut(HotkeyAction::Acknowledge);
    assert!(inbox
        .popover
        .take_gestures()
        .iter()
        .any(|g| matches!(g, Gesture::Click(Press::PopoverAction(Action::Ack { checked: true, .. })))));
    inbox.popover.toggle_details("PR_1");
    inbox.draw(&prs, None);
    assert!(inbox.popover.rows.get("PR_1").unwrap().details.is_some());
    assert!(inbox.popover.rows.get("PR_2").unwrap().details.is_none());
    inbox.popover.toggle();
    assert!(!inbox.popover.visible);
}

#[test]
fn rows_show_what_became_of_a_merge() {
    let mut inbox = Inbox::new();
    let prs = vec![pr("PR_1", 1, State::Comments)];
    let mut state = ActionState::default();
    state.preferences.insert(
        "owner/repo".to_string(),
        Preferences { merge: Rule { enabled: true, condition: Condition::Always }, ..Default::default() },
    );
    state.merges.insert("PR_1".to_string(), MergeProgress::Failed("Blocked".into()));
    inbox.popover.action_state = state;
    inbox.draw(&prs, None);
    assert!(inbox.popover.rows.get("PR_1").unwrap().message.as_deref().unwrap().contains("Blocked"));
}

#[test]
fn settings_are_shown_in_place_of_the_list() {
    let mut app = App::new(true);
    app.step(AppEvent::Worker(UiEvent::HotkeysLoaded { preferences: Shortcuts::default(), error: None }));
    app.step(AppEvent::Pressed(Press::PopoverAction(Action::Config)));
    assert!(app.desk.popover.visible);
    assert_eq!(app.desk.popover.screen.title, "Settings");
    assert_eq!(app.desk.popover.keyboard_context(), (false, true));
    app.step(AppEvent::Escape);
    assert!(app.desk.popover.detail.is_none());
    assert!(app.desk.popover.visible);
    app.step(AppEvent::Escape);
    assert!(!app.desk.popover.visible);
}

#[test]
fn the_menu_in_the_inbox_lists_what_else_can_be_done() {
    let titles = |items: Vec<Item>| -> Vec<String> {
        items
            .into_iter()
            .map(|item| match item {
                Item::Separator => "-".to_owned(),
                Item::Text(title) => title,
                Item::Button { title, .. } => title,
                Item::Check { title, enabled, checked, .. } => format!("{title} {enabled} {checked}"),
            })
            .collect()
    };
    assert_eq!(
        titles(inbox_menu(false, true, true)),
        [
            "Show ignored",
            "-",
            "Settings",
            "Notification settings",
            "Open logs",
            "-",
            "Launch at login true true",
            "Quit Gopher",
        ]
    );
    let other = titles(inbox_menu(true, false, true));
    assert_eq!(other[6], "Launch at login false false");
    assert_eq!(other[7], "Quit Gopher Dev");
}
