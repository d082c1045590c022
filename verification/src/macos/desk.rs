//! The application in the menu bar: what happens to it, and what it asks for.

use crate::actions::{ActionState, Preferences, Request};
use crate::github::{exchange, fields};
use crate::hotkeys;
use crate::hotkeys::{Binding, BindingView, HotkeyAction};
use crate::identity;
use crate::macos;
use crate::macos::keyboard::{Edit as KeyEdit, GlobalKey, Keyboard, KeyboardView};
use crate::macos::menu;
use crate::macos::menu::{Entry, EntryView};
use crate::macos::popover::action_views;
use crate::macos::popover::inbox;
use crate::macos::popover::inbox::{count_updates, News, NewsView, ReviewPopover, ReviewPopoverView};
use crate::macos::popover::{Press, PressView};
use crate::macos::updates::{Edit as UpdateEdit, State as UpdateState, StateView as UpdateStateView};
use crate::macos::{check_url, menu_bar_state, Action, ActionView, MenuBarState, MenuState, MenuStateView};
use crate::model::{PullRequest, PullRequestView};
use crate::text;
use crate::text_map::TextMap;
use crate::worker::action_worker::effects::{ActionCommand, ActionCommandView};
use crate::worker::events::{Command, CommandView, UiEvent, UiEventView};
use vstd::prelude::*;

verus! {

/// A notification.
#[derive(Debug)]
pub struct Announcement {
    pub id: String,
    pub title: String,
    pub body: String,
    pub review: bool,
}

/// The contents of a [`Announcement`].
#[verifier::ext_equal]
pub struct AnnouncementView {
    pub id: Seq<char>,
    pub title: Seq<char>,
    pub body: Seq<char>,
    pub review: bool,
}

impl View for Announcement {
    type V = AnnouncementView;

    open spec fn view(&self) -> AnnouncementView {
        AnnouncementView {
            id: self.id@,
            title: self.title@,
            body: self.body@,
            review: self.review,
        }
    }
}

impl DeepView for Announcement {
    type V = AnnouncementView;

    open spec fn deep_view(&self) -> AnnouncementView {
        self@
    }
}

/// What happens to the application.
pub enum AppEvent {
    /// The icon stands in the menu bar.
    Started,
    Worker(UiEvent),
    UpdaterChanged,
    Shortcut(HotkeyAction),
    Escape,
    GlobalShortcut(GlobalKey),
    ShortcutRecorded { action: HotkeyAction, binding: Binding },
    HighlightPr(String),
    /// An item of the menu was chosen.
    Menu(String),
    MenuClosed,
    /// Notifications are permitted or not.
    Permission(bool),
    NotificationError(String),
    TogglePopover,
    /// A control of the inbox was used.
    Pressed(Press),
    RefreshPopover,
    /// A pull request was opened in the browser, or was not.
    Opened { pr: String, update: String, error: Option<String>, listening: bool },
    /// Something that was asked for has failed.
    Failed(String),
    Shutdown(String),
}

/// The contents of an [`AppEvent`].
pub enum AppEventView {
    Started,
    Worker(UiEventView),
    UpdaterChanged,
    Shortcut(HotkeyAction),
    Escape,
    GlobalShortcut(GlobalKey),
    ShortcutRecorded { action: HotkeyAction, binding: BindingView },
    HighlightPr(Seq<char>),
    Menu(Seq<char>),
    MenuClosed,
    Permission(bool),
    NotificationError(Seq<char>),
    TogglePopover,
    Pressed(PressView),
    RefreshPopover,
    Opened { pr: Seq<char>, update: Seq<char>, error: Option<Seq<char>>, listening: bool },
    Failed(Seq<char>),
    Shutdown(Seq<char>),
}

impl View for AppEvent {
    type V = AppEventView;

    open spec fn view(&self) -> AppEventView {
        match self {
            AppEvent::Started => AppEventView::Started,
            AppEvent::Worker(event) => AppEventView::Worker(event@),
            AppEvent::UpdaterChanged => AppEventView::UpdaterChanged,
            AppEvent::Shortcut(action) => AppEventView::Shortcut(*action),
            AppEvent::Escape => AppEventView::Escape,
            AppEvent::GlobalShortcut(key) => AppEventView::GlobalShortcut(*key),
            AppEvent::ShortcutRecorded { action, binding } => AppEventView::ShortcutRecorded { action: *action, binding: binding@ },
            AppEvent::HighlightPr(id) => AppEventView::HighlightPr(id@),
            AppEvent::Menu(id) => AppEventView::Menu(id@),
            AppEvent::MenuClosed => AppEventView::MenuClosed,
            AppEvent::Permission(granted) => AppEventView::Permission(*granted),
            AppEvent::NotificationError(message) => AppEventView::NotificationError(message@),
            AppEvent::TogglePopover => AppEventView::TogglePopover,
            AppEvent::Pressed(press) => AppEventView::Pressed(press@),
            AppEvent::RefreshPopover => AppEventView::RefreshPopover,
            AppEvent::Opened { pr, update, error, listening } => AppEventView::Opened {
                pr: pr@,
                update: update@,
                error: error.deep_view(),
                listening: *listening,
            },
            AppEvent::Failed(message) => AppEventView::Failed(message@),
            AppEvent::Shutdown(reason) => AppEventView::Shutdown(reason@),
        }
    }
}

impl DeepView for AppEvent {
    type V = AppEventView;

    open spec fn deep_view(&self) -> AppEventView {
        self@
    }
}

/// What the application asks for.
pub enum Output {
    /// Tells the worker something.
    Send(Command),
    /// Shows a notification.
    Deliver(Announcement),
    /// Removes notifications.
    Withdraw(Vec<String>),
    RequestPermission,
    /// Opens a pull request in the browser; answered when that is done.
    OpenUrl { url: String, pr: String, update: String },
    OpenConfigFile,
    OpenLogs,
    OpenNotificationSettings,
    ToggleLogin,
    CheckUpdates,
    EditUpdates(UpdateEdit),
    /// Writes down that the application is to end.
    Log(String),
    /// Replaces the menu and the icon.
    Bar { entries: Vec<Entry>, state: MenuBarState, failed: bool, tooltip: String },
    WakeAt(u128),
    Exit,
}

/// The contents of an [`Output`].
pub enum OutputView {
    Send(CommandView),
    Deliver(AnnouncementView),
    Withdraw(Seq<Seq<char>>),
    RequestPermission,
    OpenUrl { url: Seq<char>, pr: Seq<char>, update: Seq<char> },
    OpenConfigFile,
    OpenLogs,
    OpenNotificationSettings,
    ToggleLogin,
    CheckUpdates,
    EditUpdates(UpdateEdit),
    Log(Seq<char>),
    Bar { entries: Seq<EntryView>, state: MenuBarState, failed: bool, tooltip: Seq<char> },
    WakeAt(u128),
    Exit,
}

impl View for Output {
    type V = OutputView;

    open spec fn view(&self) -> OutputView {
        match self {
            Output::Send(command) => OutputView::Send(command@),
            Output::Deliver(announcement) => OutputView::Deliver(announcement@),
            Output::Withdraw(ids) => OutputView::Withdraw(ids.deep_view()),
            Output::RequestPermission => OutputView::RequestPermission,
            Output::OpenUrl { url, pr, update } => OutputView::OpenUrl { url: url@, pr: pr@, update: update@ },
            Output::OpenConfigFile => OutputView::OpenConfigFile,
            Output::OpenLogs => OutputView::OpenLogs,
            Output::OpenNotificationSettings => OutputView::OpenNotificationSettings,
            Output::ToggleLogin => OutputView::ToggleLogin,
            Output::CheckUpdates => OutputView::CheckUpdates,
            Output::EditUpdates(edit) => OutputView::EditUpdates(*edit),
            Output::Log(reason) => OutputView::Log(reason@),
            Output::Bar { entries, state, failed, tooltip } => OutputView::Bar { entries: entries.deep_view(), state: *state, failed: *failed, tooltip: tooltip@ },
            Output::WakeAt(clock) => OutputView::WakeAt(*clock),
            Output::Exit => OutputView::Exit,
        }
    }
}

impl DeepView for Output {
    type V = OutputView;

    open spec fn deep_view(&self) -> OutputView {
        self@
    }
}

/// The application.
pub struct Desk {
    pub dev: bool,
    pub bundled: bool,
    /// Whether the icon stands in the menu bar.
    pub tray: bool,
    pub popover: ReviewPopover,
    pub keyboard: Keyboard,
    pub menu_state: MenuState,
    pub prs: Vec<PullRequest>,
    pub refreshing: bool,
    pub service_error: Option<String>,
    pub ui_error: Option<String>,
    pub ignored_prs: Vec<PullRequest>,
    pub ignored_error: Option<String>,
    pub ignored_loading: bool,
    pub permission: Option<bool>,
    /// Notifications that wait for the permission.
    pub pending: Vec<Announcement>,
    pub shutting_down: bool,
    pub worker_stopped: bool,
    pub exit_reason: String,
    /// Where a notification leads to.
    pub pending_reveal: Option<Option<String>>,
    pub outputs: Vec<Output>,
}

/// The contents of a [`Desk`].
pub struct DeskView {
    pub dev: bool,
    pub bundled: bool,
    pub tray: bool,
    pub popover: ReviewPopoverView,
    pub keyboard: KeyboardView,
    pub menu_state: MenuStateView,
    pub prs: Seq<PullRequestView>,
    pub refreshing: bool,
    pub service_error: Option<Seq<char>>,
    pub ui_error: Option<Seq<char>>,
    pub ignored_prs: Seq<PullRequestView>,
    pub ignored_error: Option<Seq<char>>,
    pub ignored_loading: bool,
    pub permission: Option<bool>,
    pub pending: Seq<AnnouncementView>,
    pub shutting_down: bool,
    pub worker_stopped: bool,
    pub exit_reason: Seq<char>,
    pub pending_reveal: Option<Option<Seq<char>>>,
    pub outputs: Seq<OutputView>,
}

impl View for Desk {
    type V = DeskView;

    open spec fn view(&self) -> DeskView {
        DeskView {
            dev: self.dev,
            bundled: self.bundled,
            tray: self.tray,
            popover: self.popover@,
            keyboard: self.keyboard@,
            menu_state: self.menu_state@,
            prs: self.prs.deep_view(),
            refreshing: self.refreshing,
            service_error: self.service_error.deep_view(),
            ui_error: self.ui_error.deep_view(),
            ignored_prs: self.ignored_prs.deep_view(),
            ignored_error: self.ignored_error.deep_view(),
            ignored_loading: self.ignored_loading,
            permission: self.permission,
            pending: self.pending.deep_view(),
            shutting_down: self.shutting_down,
            worker_stopped: self.worker_stopped,
            exit_reason: self.exit_reason@,
            pending_reveal: self.pending_reveal.deep_view(),
            outputs: self.outputs.deep_view(),
        }
    }
}

/// What the application sees around itself when something happens.
pub struct Around<'a> {
    /// Whether the inbox has the focus.
    pub focused: bool,
    pub at_login: bool,
    pub updates: &'a UpdateState,
    /// What the version is.
    pub heading: &'a str,
    pub now: i64,
    /// A clock that never goes back, in nanoseconds.
    pub clock: u64,
    /// When pull requests were fetched, as texts of the local time zone.
    pub times: &'a TextMap<String>,
}

/// The contents of [`Around`].
pub struct AroundView {
    pub focused: bool,
    pub at_login: bool,
    pub updates: UpdateStateView,
    pub heading: Seq<char>,
    pub now: i64,
    pub clock: u64,
    pub times: Map<Seq<char>, Seq<char>>,
}

impl<'a> View for Around<'a> {
    type V = AroundView;

    open spec fn view(&self) -> AroundView {
        AroundView {
            focused: self.focused,
            at_login: self.at_login,
            updates: self.updates@,
            heading: self.heading@,
            now: self.now,
            clock: self.clock,
            times: self.times@,
        }
    }
}

/// The text shown when notifications are not permitted.
pub const NOT_PERMITTED: &'static str =
    "Notifications are disabled. Enable Gopher in System Settings → Notifications.";

/// The text shown when the application is not packaged.
pub const NOT_PACKAGED: &'static str = "Notifications require the packaged Gopher.app; run scripts/bundle.sh.";

/// The text shown when the worker has stopped by itself.
pub const WORKER_STOPPED: &'static str = "Gopher’s background worker stopped. Restart Gopher.";

/// The text shown when a notification could not be scheduled.
pub const NOT_SCHEDULED: &'static str = "macOS could not schedule a notification. Check notification permissions.";

/// What follows when notifications were asked to be shown.
pub open spec fn failures_of(pending: Seq<AnnouncementView>) -> Seq<OutputView> {
    pending.map_values(|a: AnnouncementView| OutputView::Send(CommandView::NotificationFailed(a.id)))
}

/// What shows notifications.
pub open spec fn deliveries_of(pending: Seq<AnnouncementView>) -> Seq<OutputView> {
    pending.map_values(|a: AnnouncementView| OutputView::Deliver(a))
}

/// The notifications that are withdrawn, or those that are not.
pub open spec fn chosen(pending: Seq<AnnouncementView>, ids: Seq<Seq<char>>, withdrawn: bool) -> Seq<AnnouncementView>
    decreases pending.len(),
{
    if pending.len() == 0 {
        Seq::empty()
    } else {
        let before = chosen(pending.drop_last(), ids, withdrawn);
        if ids.contains(pending.last().id) == withdrawn {
            before.push(pending.last())
        } else {
            before
        }
    }
}

impl DeskView {
    /// Something is asked for.
    pub open spec fn asking(self, output: OutputView) -> DeskView {
        DeskView { outputs: self.outputs.push(output), ..self }
    }

    /// Something is asked for, one after the other.
    pub open spec fn asking_all(self, outputs: Seq<OutputView>) -> DeskView {
        DeskView { outputs: self.outputs + outputs, ..self }
    }

    /// Another inbox.
    pub open spec fn with_popover(self, popover: ReviewPopoverView) -> DeskView {
        DeskView { popover, ..self }
    }

    /// Another keyboard.
    pub open spec fn with_keyboard(self, keyboard: KeyboardView) -> DeskView {
        DeskView { keyboard, ..self }
    }

    /// The panel that configures a repository is shown.
    pub open spec fn configuring(self, repo: Seq<char>) -> DeskView {
        self.with_popover(
            self.popover.with_panel(
                action_views::DetailPanelView::Configuration(
                    action_views::ConfigEditorView::showing(repo, Preferences::initial()),
                ),
            ),
        )
    }

    /// Something is wrong.
    pub open spec fn failing(self, message: Seq<char>) -> DeskView {
        DeskView { ui_error: Some(message), ..self }
    }

    /// What is wrong, where anything is.
    pub open spec fn error(self) -> Option<Seq<char>> {
        if self.service_error is Some {
            self.service_error
        } else {
            self.ui_error
        }
    }

    /// The application is to end. It does so once the worker has.
    pub open spec fn ending(self, reason: Seq<char>) -> DeskView {
        let told = DeskView { exit_reason: reason, shutting_down: true, ..self }.asking(
            OutputView::Send(CommandView::Shutdown),
        );
        if self.worker_stopped {
            told.asking(OutputView::Exit)
        } else {
            told
        }
    }

    /// The inbox is shown, where the icon is.
    pub open spec fn presented(self) -> DeskView {
        if self.tray {
            self.with_popover(self.popover.presented())
        } else {
            self
        }
    }

    /// The inbox is opened or closed, where the icon is.
    pub open spec fn toggled(self) -> DeskView {
        if self.tray {
            self.with_popover(self.popover.toggled())
        } else {
            self
        }
    }

    /// Notifications are permitted or not. Those that have waited are shown or fail.
    pub open spec fn permitted(self, granted: bool) -> DeskView {
        let known = DeskView {
            permission: Some(granted),
            pending: Seq::empty(),
            ui_error: if !granted {
                Some(NOT_PERMITTED@)
            } else {
                match self.ui_error {
                    Some(message) => if "Notifications are disabled"@.is_prefix_of(message) {
                        None
                    } else {
                        Some(message)
                    },
                    None => None,
                }
            },
            ..self
        };
        if !granted {
            known.asking_all(failures_of(self.pending))
        } else if self.bundled {
            known.asking_all(deliveries_of(self.pending))
        } else {
            known
        }
    }

    /// A notification is to be shown.
    pub open spec fn notified(self, announcement: AnnouncementView) -> DeskView {
        if self.permission == Some(true) {
            if self.bundled {
                self.asking(OutputView::Deliver(announcement))
            } else {
                self
            }
        } else if self.permission is None && self.bundled {
            DeskView { pending: self.pending.push(announcement), ..self }
        } else {
            self.asking(OutputView::Send(CommandView::NotificationFailed(announcement.id)))
        }
    }

    /// Notifications are withdrawn. Those that were not shown yet have failed.
    pub open spec fn withdrawn(self, ids: Seq<Seq<char>>) -> DeskView {
        let dropped = DeskView { pending: chosen(self.pending, ids, false), ..self }.asking_all(
            failures_of(chosen(self.pending, ids, true)),
        );
        if self.bundled {
            dropped.asking(OutputView::Withdraw(ids))
        } else {
            dropped
        }
    }

    /// A pull request is to be opened. Only one of GitHub's own addresses is.
    pub open spec fn opening(self, url: Seq<char>, pr: Seq<char>, update: Seq<char>) -> (DeskView, bool) {
        match macos::address_fault(macos::address_of(url)) {
            Ok(()) => (self.asking(OutputView::OpenUrl { url, pr, update }), false),
            Err(message) => (self.failing(message), true),
        }
    }

    /// What the worker reports, and whether the inbox is to be drawn anew.
    #[verifier::opaque]
    pub open spec fn reported(self, event: UiEventView) -> (DeskView, bool) {
        match event {
            UiEventView::Stopped => {
                let stopped = DeskView { worker_stopped: true, ..self };
                if self.shutting_down {
                    (stopped.asking(OutputView::Exit), false)
                } else {
                    (stopped.failing(WORKER_STOPPED@), true)
                }
            },
            UiEventView::HotkeysLoaded { preferences, error } => (
                self.with_keyboard(self.keyboard.loaded(preferences, error)),
                true,
            ),
            UiEventView::HotkeysSaved(result) => (
                self.with_keyboard(self.keyboard.answered(result)),
                true,
            ),
            UiEventView::ActionsChanged(state) => (
                self.with_popover(ReviewPopoverView { action_state: state, ..self.popover }),
                true,
            ),
            UiEventView::LabelRequestHandled => (self.with_popover(self.popover.label_handled()), true),
            UiEventView::IgnoredUpdated { prs, error, loading } => (
                DeskView { ignored_prs: prs, ignored_error: error, ignored_loading: loading, ..self },
                true,
            ),
            UiEventView::Updated { prs, error, loading } => (
                DeskView { prs, service_error: error, refreshing: loading, ..self },
                true,
            ),
            UiEventView::ShowPopover { pr } => (DeskView { pending_reveal: Some(pr), ..self }.presented(), true),
            UiEventView::Open { url, pr, update } => self.opening(url, pr, update),
            UiEventView::DismissNotifications(ids) => (self.withdrawn(ids), false),
            UiEventView::Notify { review, id, title, body } => (
                self.notified(AnnouncementView { id, title, body, review }),
                false,
            ),
        }
    }

    /// What an action does, and whether the inbox is to be drawn anew.
    #[verifier::opaque]
    pub open spec fn acted(self, action: ActionView, heading: Seq<char>) -> (DeskView, bool) {
        match action {
            ActionView::Open { url, pr, update } => self.opening(url, pr, update),
            ActionView::Ignore(pr) => (self.asking(OutputView::Send(CommandView::Ignore(pr))), false),
            ActionView::Restore(pr) => (self.asking(OutputView::Send(CommandView::Restore(pr))), false),
            ActionView::ShowIgnored => (
                self.with_popover(self.popover.turned(true)).asking(OutputView::Send(CommandView::ShowIgnored)),
                true,
            ),
            ActionView::BackToActive => (self.with_popover(self.popover.returned()), true),
            ActionView::ConfigureRepo(repo) => (self.configuring(repo), true),
            ActionView::Labels(id) => match action_views::found(self.prs, id) {
                Some(pr) => (
                    self.with_popover(self.popover.with_panel(inbox::labels_panel(pr))).asking(
                        OutputView::Send(
                            CommandView::Acknowledge { pr: pr.snapshot.id, update: pr.update_id, checked: true },
                        ),
                    ),
                    true,
                ),
                None => (self, false),
            },
            ActionView::Ack { pr, update, checked } => (
                self.asking(OutputView::Send(CommandView::Acknowledge { pr, update, checked })),
                false,
            ),
            ActionView::Refresh => {
                let told = self.asking(OutputView::Send(CommandView::Refresh));
                (
                    if self.bundled {
                        told.asking(OutputView::RequestPermission)
                    } else {
                        told
                    },
                    false,
                )
            },
            ActionView::Config => (
                self.with_popover(self.popover.with_settings(heading)).presented(),
                true,
            ),
            ActionView::ConfigFile => (self.asking(OutputView::OpenConfigFile), false),
            ActionView::Logs => (self.asking(OutputView::OpenLogs), false),
            ActionView::Login => (self.asking(OutputView::ToggleLogin), true),
            ActionView::NotificationSettings => (self.asking(OutputView::OpenNotificationSettings), false),
            ActionView::CheckUpdates => (self.asking(OutputView::CheckUpdates), false),
            ActionView::Quit => (self.asking(OutputView::Log("quit"@)).ending("quit"@), false),
        }
    }

    /// What a control of the inbox does, and whether the inbox is to be drawn anew.
    #[verifier::opaque]
    pub open spec fn used(self, press: PressView, heading: Seq<char>) -> (DeskView, bool) {
        match press {
            PressView::HotkeyEdit(edit) => (self.with_keyboard(self.keyboard.edited(edit)), true),
            PressView::UpdateEdit(edit) => (self.asking(OutputView::EditUpdates(edit)), true),
            PressView::PopoverAction(action) => self.acted(action, heading),
            PressView::ToggleDetails(pr) => (self.with_popover(self.popover.details_toggled(pr)), true),
            PressView::PrAction(request) => (
                self.asking(OutputView::Send(CommandView::PrAction(ActionCommandView::Request(request)))),
                false,
            ),
        }
    }

    /// What happens, and whether the inbox is to be drawn anew.
    #[verifier::opaque]
    pub open spec fn handled(self, event: AppEventView, around: AroundView) -> (DeskView, bool) {
        match event {
            AppEventView::Started => (DeskView { tray: true, ..self }, true),
            AppEventView::Worker(event) => self.reported(event),
            AppEventView::UpdaterChanged => (self, true),
            AppEventView::Shortcut(action) => {
                let (popover, rebuild) = self.popover.performed(action);
                (self.with_popover(popover), rebuild)
            },
            AppEventView::Escape => (self.with_popover(self.popover.escaped()), true),
            AppEventView::GlobalShortcut(key) => {
                let (keyboard, toggles) = self.keyboard.called(key, around.focused);
                let called = self.with_keyboard(keyboard);
                (
                    if toggles {
                        called.toggled()
                    } else {
                        called
                    },
                    true,
                )
            },
            AppEventView::ShortcutRecorded { action, binding } => (
                self.with_keyboard(self.keyboard.chosen(action, Some(binding))),
                true,
            ),
            AppEventView::HighlightPr(id) => (self.with_popover(self.popover.highlighted(id)), true),
            AppEventView::Menu(id) => match self.menu_state.action_of(id) {
                Some(action) => self.acted(action, around.heading),
                None => (self, false),
            },
            AppEventView::MenuClosed => (self, false),
            AppEventView::Permission(granted) => (self.permitted(granted), true),
            AppEventView::NotificationError(message) => (self.failing(message), true),
            AppEventView::TogglePopover => (self.toggled(), true),
            AppEventView::Pressed(press) => self.used(press, around.heading),
            AppEventView::RefreshPopover => (self, true),
            AppEventView::Opened { pr, update, error, listening } => match macos::opened(
                match error {
                    None => Ok(()),
                    Some(message) => Err(message),
                },
                listening,
                pr,
                update,
            ) {
                Ok(command) => (self.asking(OutputView::Send(command)), false),
                Err(message) => (self.failing(message), true),
            },
            AppEventView::Failed(message) => (self.failing(message), true),
            AppEventView::Shutdown(reason) => (self.ending(reason), false),
        }
    }

    /// The keyboard knows what the inbox shows.
    pub open spec fn synchronized(self) -> DeskView {
        DeskView {
            keyboard: self.keyboard.synchronized(
                self.popover.visible,
                self.popover.takes_shortcuts(),
                self.popover.shows_settings(),
            ),
            ..self
        }
    }

    /// What is drawn: the list that is shown, and what is wrong with it.
    pub open spec fn news(self, around: AroundView) -> NewsView {
        if self.popover.showing_ignored {
            NewsView {
                prs: self.ignored_prs,
                error: self.ignored_error,
                bundled: self.bundled,
                at_login: around.at_login,
                loading: self.ignored_loading,
                now: around.now,
                times: around.times,
            }
        } else {
            NewsView {
                prs: self.prs,
                error: self.error(),
                bundled: self.bundled,
                at_login: around.at_login,
                loading: self.refreshing,
                now: around.now,
                times: around.times,
            }
        }
    }

    /// A notification leads to its pull request as soon as nothing is in its way.
    #[verifier::opaque]
    pub open spec fn led(self, rebuild: bool, clock: u64) -> (DeskView, bool) {
        match self.pending_reveal {
            Some(pr) => if self.tray {
                let (popover, ready) = self.popover.reveal_prepared();
                if ready {
                    (
                        DeskView {
                            popover: popover.presented().scrolled_to(pr, clock),
                            pending_reveal: None,
                            ..self
                        },
                        true,
                    )
                } else {
                    (self.with_popover(popover), rebuild)
                }
            } else {
                (self, rebuild)
            },
            None => (self, rebuild),
        }
    }

    /// The flashing goes on.
    #[verifier::opaque]
    pub open spec fn flashing(self, clock: u64) -> DeskView {
        let (popover, next) = self.popover.animated(clock as u128);
        let moved = self.with_popover(popover);
        match next {
            Some(next) => if self.shutting_down && self.worker_stopped {
                moved
            } else {
                moved.asking(OutputView::WakeAt(next))
            },
            None => moved,
        }
    }

    /// The menu bar: the menu, the icon, whether something is wrong, and how many pull
    /// requests and updates there are.
    pub open spec fn bar(self, around: AroundView) -> OutputView {
        OutputView::Bar {
            entries: menu::menu_of(
                self.prs,
                self.error(),
                self.dev,
                self.bundled,
                around.at_login,
                around.updates,
                around.now,
                around.times,
            ),
            state: macos::bar_state(self.prs, self.error() is Some),
            failed: self.error() is Some,
            tooltip: identity::identity_of(self.dev).name + " · "@ + text::decimal_of(self.prs.len()) + " PRs · "@
                + text::decimal_of(inbox::updates_in(self.prs)) + " updates"@,
        }
    }

    /// The menu is replaced where it may be.
    #[verifier::opaque]
    pub open spec fn with_menu(self, rebuild: bool, around: AroundView) -> DeskView {
        let wanted = DeskView {
            menu_state: if rebuild {
                self.menu_state.requested()
            } else {
                self.menu_state
            },
            ..self
        };
        if wanted.menu_state.ready() && self.tray {
            wanted.asking(self.bar(around))
        } else {
            wanted
        }
    }

    /// What follows whatever has happened.
    #[verifier::opaque]
    pub open spec fn settled(self, rebuild: bool, around: AroundView) -> DeskView {
        let updated = self.with_popover(ReviewPopoverView { update_state: around.updates, ..self.popover });
        let synchronized = updated.synchronized();
        let known = synchronized.with_popover(
            ReviewPopoverView { keyboard_state: synchronized.keyboard.state, ..synchronized.popover },
        );
        let (led, rebuild) = known.led(rebuild, around.clock);
        let drawn = if rebuild {
            led.with_popover(led.popover.drawn(led.news(around)))
        } else {
            led
        };
        drawn.synchronized().flashing(around.clock).with_menu(rebuild, around)
    }

    /// Something happens. While the application ends, only the worker counts.
    pub open spec fn stepped(self, event: AppEventView, around: AroundView) -> DeskView {
        if self.shutting_down && !(event is Worker) && !(event is Shutdown) {
            self
        } else {
            let (after, rebuild) = self.handled(event, around);
            after.settled(rebuild, around)
        }
    }
}

impl Desk {
    /// The application of a build, packaged or not.
    pub fn new(dev: bool, bundled: bool, keyboard: Keyboard) -> (r: Self)
        ensures
            r@.dev == dev,
            r@.bundled == bundled,
            !r@.tray,
            r@.keyboard == keyboard@,
            r@.menu_state == MenuStateView::blank(),
            r@.prs == Seq::<PullRequestView>::empty(),
            !r@.refreshing,
            r@.service_error is None,
            r@.ui_error == (if bundled {
                None
            } else {
                Some(NOT_PACKAGED@)
            }),
            r@.ignored_prs == Seq::<PullRequestView>::empty(),
            r@.ignored_error is None,
            !r@.ignored_loading,
            r@.permission is None,
            r@.pending == Seq::<AnnouncementView>::empty(),
            !r@.shutting_down,
            !r@.worker_stopped,
            r@.exit_reason == "event_loop_returned"@,
            r@.pending_reveal is None,
            r@.outputs == Seq::<OutputView>::empty(),
            r@.popover == ReviewPopoverView::blank(dev),
    {
        let prs: Vec<PullRequest> = Vec::new();
        let ignored_prs: Vec<PullRequest> = Vec::new();
        let pending: Vec<Announcement> = Vec::new();
        let outputs: Vec<Output> = Vec::new();
        assert(prs.deep_view() =~= Seq::empty());
        assert(ignored_prs.deep_view() =~= Seq::empty());
        assert(pending.deep_view() =~= Seq::empty());
        assert(outputs.deep_view() =~= Seq::empty());
        Desk {
            dev,
            bundled,
            tray: false,
            popover: ReviewPopover::new(dev),
            keyboard,
            menu_state: MenuState::default(),
            prs,
            refreshing: false,
            service_error: None,
            ui_error: if bundled {
                None
            } else {
                Some(NOT_PACKAGED.to_owned())
            },
            ignored_prs,
            ignored_error: None,
            ignored_loading: false,
            permission: None,
            pending,
            shutting_down: false,
            worker_stopped: false,
            exit_reason: "event_loop_returned".to_owned(),
            pending_reveal: None,
            outputs,
        }
    }

    /// Takes what is asked for.
    pub fn take_outputs(&mut self) -> (r: Vec<Output>)
        ensures
            r.deep_view() == old(self)@.outputs,
            final(self)@ == (DeskView { outputs: Seq::empty(), ..old(self)@ }),
    {
        let mut taken: Vec<Output> = Vec::new();
        std::mem::swap(&mut self.outputs, &mut taken);
        assert(self.outputs.deep_view() =~= Seq::empty());
        taken
    }

    /// Asks for something.
    fn ask(&mut self, output: Output)
        ensures
            final(self)@ == old(self)@.asking(output@),
    {
        let ghost before = self.outputs.deep_view();
        self.outputs.push(output);
        assert(self.outputs.deep_view() =~= before.push(output@));
    }

    /// Something is wrong.
    fn fail(&mut self, message: String)
        ensures
            final(self)@ == old(self)@.failing(message@),
    {
        self.ui_error = Some(message);
    }

    /// The application is to end.
    fn end(&mut self, reason: String)
        ensures
            final(self)@ == old(self)@.ending(reason@),
    {
        self.exit_reason = reason;
        self.shutting_down = true;
        self.ask(Output::Send(Command::Shutdown));
        if self.worker_stopped {
            self.ask(Output::Exit);
        }
    }

    /// Shows the inbox, where the icon is.
    fn present(&mut self)
        ensures
            final(self)@ == old(self)@.presented(),
    {
        if self.tray {
            self.popover.show();
        }
    }

    /// Opens or closes the inbox, where the icon is.
    fn toggle(&mut self)
        ensures
            final(self)@ == old(self)@.toggled(),
    {
        if self.tray {
            self.popover.toggle();
        }
    }

    /// Tells the worker that notifications have failed.
    fn ask_failures(&mut self, pending: &Vec<Announcement>)
        ensures
            final(self)@ == old(self)@.asking_all(failures_of(pending.deep_view())),
    {
        let ghost start = self@;
        let ghost all = failures_of(pending.deep_view());
        let mut i: usize = 0;
        assert(start.outputs + all.take(0) =~= start.outputs);
        while i < pending.len()
            invariant
                i <= pending@.len(),
                all == failures_of(pending.deep_view()),
                self@ == start.asking_all(all.take(i as int)),
            decreases pending.len() - i,
        {
            assert(all[i as int] == OutputView::Send(CommandView::NotificationFailed(pending@[i as int]@.id)));
            self.ask(Output::Send(Command::NotificationFailed(pending[i].id.clone())));
            assert(start.outputs + all.take(i + 1) =~= (start.outputs + all.take(i as int)).push(all[i as int]));
            i += 1;
        }
        assert(all.take(i as int) =~= all);
    }

    /// Shows notifications.
    fn ask_deliveries(&mut self, pending: Vec<Announcement>)
        ensures
            final(self)@ == old(self)@.asking_all(deliveries_of(pending.deep_view())),
    {
        let ghost start = self@;
        let ghost all = deliveries_of(pending.deep_view());
        let ghost count = pending@.len();
        let mut rest = pending;
        let ghost mut done: int = 0;
        assert(start.outputs + all.take(0) =~= start.outputs);
        assert(deliveries_of(rest.deep_view()) =~= all.skip(0));
        while rest.len() > 0
            invariant
                0 <= done <= count,
                all.len() == count,
                rest@.len() == count - done,
                deliveries_of(rest.deep_view()) =~= all.skip(done),
                self@ == start.asking_all(all.take(done)),
            decreases rest.len(),
        {
            let ghost before = rest.deep_view();
            let first = rest.remove(0);
            assert(before[0] == first@);
            assert(rest.deep_view() =~= before.skip(1));
            assert(all[done] == deliveries_of(before)[0]) by {
                assert(all.skip(done)[0] == all[done]);
            }
            assert(deliveries_of(rest.deep_view()) =~= all.skip(done + 1)) by {
                assert(deliveries_of(before).skip(1) =~= deliveries_of(before.skip(1)));
                assert(all.skip(done).skip(1) =~= all.skip(done + 1));
            }
            self.ask(Output::Deliver(first));
            assert(start.outputs + all.take(done + 1) =~= (start.outputs + all.take(done)).push(all[done]));
            proof {
                done = done + 1;
            }
        }
        assert(all.take(done) =~= all);
    }

    /// Notifications are permitted or not.
    fn permit(&mut self, granted: bool)
        ensures
            final(self)@ == old(self)@.permitted(granted),
    {
        self.permission = Some(granted);
        if !granted {
            self.ui_error = Some(NOT_PERMITTED.to_owned());
        } else {
            let stale = match &self.ui_error {
                Some(message) => text::starts_with(message, "Notifications are disabled"),
                None => false,
            };
            if stale {
                self.ui_error = None;
            }
        }
        let mut pending: Vec<Announcement> = Vec::new();
        std::mem::swap(&mut self.pending, &mut pending);
        assert(self.pending.deep_view() =~= Seq::empty());
        if !granted {
            self.ask_failures(&pending);
        } else if self.bundled {
            self.ask_deliveries(pending);
        }
    }

    /// A notification is to be shown.
    fn notify(&mut self, announcement: Announcement)
        ensures
            final(self)@ == old(self)@.notified(announcement@),
    {
        match self.permission {
            Some(true) => {
                if self.bundled {
                    self.ask(Output::Deliver(announcement));
                }
            },
            None if self.bundled => {
                let ghost before = self.pending.deep_view();
                self.pending.push(announcement);
                assert(self.pending.deep_view() =~= before.push(announcement@));
            },
            _ => {
                self.ask(Output::Send(Command::NotificationFailed(announcement.id)));
            },
        }
    }

    /// Notifications are withdrawn.
    fn withdraw(&mut self, ids: Vec<String>)
        ensures
            final(self)@ == old(self)@.withdrawn(ids.deep_view()),
    {
        let mut pending: Vec<Announcement> = Vec::new();
        std::mem::swap(&mut self.pending, &mut pending);
        let (kept, dropped) = part(pending, &ids);
        self.pending = kept;
        self.ask_failures(&dropped);
        if self.bundled {
            self.ask(Output::Withdraw(ids));
        }
    }

    /// A pull request is to be opened. The result says whether the inbox is to be drawn anew.
    fn open(&mut self, url: String, pr: String, update: String) -> (r: bool)
        ensures
            (final(self)@, r) == old(self)@.opening(url@, pr@, update@),
    {
        match check_url(&url) {
            Ok(()) => {
                self.ask(Output::OpenUrl { url, pr, update });
                false
            },
            Err(message) => {
                self.fail(message);
                true
            },
        }
    }

    // What follows changes one part each.

    /// The inbox learns what is known of updates.
    fn learn_updates(&mut self, updates: &UpdateState)
        ensures
            final(self)@ == old(self)@.with_popover(
                ReviewPopoverView { update_state: updates@, ..old(self)@.popover },
            ),
    {
        self.popover.update_state = updates.clone();
    }

    /// The inbox learns the state of the keyboard.
    fn learn_keyboard(&mut self)
        ensures
            final(self)@ == old(self)@.with_popover(
                ReviewPopoverView { keyboard_state: old(self)@.keyboard.state, ..old(self)@.popover },
            ),
    {
        self.popover.keyboard_state = self.keyboard.state.clone();
    }

    /// The inbox learns the state of actions.
    fn learn_actions(&mut self, state: ActionState)
        ensures
            final(self)@ == old(self)@.with_popover(
                ReviewPopoverView { action_state: state@, ..old(self)@.popover },
            ),
    {
        self.popover.action_state = state;
    }

    /// A request about a label was handled.
    fn label_handled(&mut self)
        ensures
            final(self)@ == old(self)@.with_popover(old(self)@.popover.label_handled()),
    {
        self.popover.label_request_handled();
    }

    /// Shows the other list.
    fn turn(&mut self, ignored: bool)
        ensures
            final(self)@ == old(self)@.with_popover(old(self)@.popover.turned(ignored)),
    {
        self.popover.show_ignored(ignored);
    }

    /// Goes back.
    fn go_back(&mut self)
        ensures
            final(self)@ == old(self)@.with_popover(old(self)@.popover.returned()),
    {
        self.popover.back();
    }

    /// Configures the actions of a repository.
    fn configure(&mut self, repo: &str)
        ensures
            final(self)@ == old(self)@.configuring(repo@),
    {
        self.popover.configure_repo(repo);
    }

    /// Opens the settings.
    fn open_settings(&mut self, heading: &str)
        ensures
            final(self)@ == old(self)@.with_popover(old(self)@.popover.with_settings(heading@)),
    {
        self.popover.settings(heading.to_owned());
    }

    /// Shows or hides details.
    fn toggle_details(&mut self, pr: &str)
        ensures
            final(self)@ == old(self)@.with_popover(old(self)@.popover.details_toggled(pr@)),
    {
        self.popover.toggle_details(pr);
    }

    /// The Escape key.
    fn escape(&mut self)
        ensures
            final(self)@ == old(self)@.with_popover(old(self)@.popover.escaped()),
    {
        self.popover.escape();
    }

    /// Selects a pull request that is shown.
    fn highlight(&mut self, id: String)
        ensures
            final(self)@ == old(self)@.with_popover(old(self)@.popover.highlighted(id@)),
    {
        self.popover.highlight(id);
    }

    /// A shortcut.
    fn perform(&mut self, action: HotkeyAction) -> (r: bool)
        ensures
            r == old(self)@.popover.performed(action).1,
            final(self)@ == old(self)@.with_popover(old(self)@.popover.performed(action).0),
    {
        self.popover.shortcut(action)
    }

    /// The shortcuts were loaded.
    fn load_keys(&mut self, preferences: hotkeys::Preferences, error: Option<String>)
        ensures
            final(self)@ == old(self)@.with_keyboard(old(self)@.keyboard.loaded(preferences@, error.deep_view())),
    {
        self.keyboard.load(preferences, error);
    }

    /// The shortcuts were saved, or could not be.
    fn keys_saved(&mut self, result: Result<(), String>)
        ensures
            final(self)@ == old(self)@.with_keyboard(old(self)@.keyboard.answered(fields::result_view(result))),
    {
        self.keyboard.saved(result);
    }

    /// A change of shortcuts in the settings.
    fn edit_keys(&mut self, edit: KeyEdit)
        ensures
            final(self)@ == old(self)@.with_keyboard(old(self)@.keyboard.edited(edit)),
    {
        self.keyboard.edit(edit);
    }

    /// A shortcut was recorded.
    fn record_key(&mut self, action: HotkeyAction, binding: Binding)
        ensures
            final(self)@ == old(self)@.with_keyboard(old(self)@.keyboard.chosen(action, Some(binding@))),
    {
        self.keyboard.recorded(action, Some(binding));
    }

    /// The registered key was pressed.
    fn call_key(&mut self, key: GlobalKey, focused: bool) -> (r: bool)
        ensures
            r == old(self)@.keyboard.called(key, focused).1,
            final(self)@ == old(self)@.with_keyboard(old(self)@.keyboard.called(key, focused).0),
    {
        self.keyboard.global_event(key, focused)
    }

    /// The ignored pull requests are others.
    fn take_ignored(&mut self, prs: Vec<PullRequest>, error: Option<String>, loading: bool)
        ensures
            final(self)@ == (DeskView {
                ignored_prs: prs.deep_view(),
                ignored_error: error.deep_view(),
                ignored_loading: loading,
                ..old(self)@
            }),
    {
        self.ignored_prs = prs;
        self.ignored_error = error;
        self.ignored_loading = loading;
    }

    /// The active pull requests are others.
    fn take_prs(&mut self, prs: Vec<PullRequest>, error: Option<String>, loading: bool)
        ensures
            final(self)@ == (DeskView {
                prs: prs.deep_view(),
                service_error: error.deep_view(),
                refreshing: loading,
                ..old(self)@
            }),
    {
        self.prs = prs;
        self.service_error = error;
        self.refreshing = loading;
    }

    /// A notification is to lead to its pull request.
    fn want_reveal(&mut self, pr: Option<String>)
        ensures
            final(self)@ == (DeskView { pending_reveal: Some(pr.deep_view()), ..old(self)@ }),
    {
        self.pending_reveal = Some(pr);
    }

    /// The worker has stopped.
    fn stopped(&mut self) -> (r: bool)
        ensures
            (final(self)@, r) == old(self)@.reported(UiEventView::Stopped),
    {
        proof {
            reveal(DeskView::reported);
        }
        self.worker_stopped = true;
        if self.shutting_down {
            self.ask(Output::Exit);
            false
        } else {
            self.fail(WORKER_STOPPED.to_owned());
            true
        }
    }

    /// What the worker reports.
    fn report(&mut self, event: UiEvent) -> (r: bool)
        ensures
            (final(self)@, r) == old(self)@.reported(event@),
    {
        proof {
            reveal(DeskView::reported);
        }
        match event {
            UiEvent::Stopped => {
                self.stopped()
            },
            UiEvent::HotkeysLoaded { preferences, error } => {
                self.load_keys(preferences, error);
                true
            },
            UiEvent::HotkeysSaved(result) => {
                self.keys_saved(result);
                true
            },
            UiEvent::ActionsChanged(state) => {
                self.learn_actions(state);
                true
            },
            UiEvent::LabelRequestHandled => {
                self.label_handled();
                true
            },
            UiEvent::IgnoredUpdated { prs, error, loading } => {
                self.take_ignored(prs, error, loading);
                true
            },
            UiEvent::Updated { prs, error, loading } => {
                self.take_prs(prs, error, loading);
                true
            },
            UiEvent::ShowPopover { pr } => {
                self.want_reveal(pr);
                self.present();
                true
            },
            UiEvent::Open { url, pr, update } => self.open(url, pr, update),
            UiEvent::DismissNotifications(ids) => {
                self.withdraw(ids);
                false
            },
            UiEvent::Notify { review, id, title, body } => {
                self.notify(Announcement { id, title, body, review });
                false
            },
        }
    }

    /// Shows the labels of a pull request, and acknowledges the update that is shown.
    fn show_labels(&mut self, id: &str) -> (r: bool)
        ensures
            (final(self)@, r) == old(self)@.acted(ActionView::Labels(id@), Seq::empty()),
    {
        proof {
            reveal(DeskView::acted);
        }
        let command = match action_views::find(&self.prs, id) {
            Some(pr) => {
                self.popover.show_labels(pr);
                Command::Acknowledge {
                    pr: pr.snapshot.id.clone(),
                    update: pr.update_id.clone(),
                    checked: true,
                }
            },
            None => {
                return false;
            },
        };
        self.ask(Output::Send(command));
        true
    }

    /// What an action does.
    fn act(&mut self, action: Action, heading: &str) -> (r: bool)
        ensures
            (final(self)@, r) == old(self)@.acted(action@, heading@),
    {
        proof {
            reveal(DeskView::acted);
        }
        match action {
            Action::Open { url, pr, update } => self.open(url, pr, update),
            Action::Ignore(pr) => {
                self.ask(Output::Send(Command::Ignore(pr)));
                false
            },
            Action::Restore(pr) => {
                self.ask(Output::Send(Command::Restore(pr)));
                false
            },
            Action::ShowIgnored => {
                self.turn(true);
                self.ask(Output::Send(Command::ShowIgnored));
                true
            },
            Action::BackToActive => {
                self.go_back();
                true
            },
            Action::ConfigureRepo(repo) => {
                self.configure(&repo);
                true
            },
            Action::Labels(id) => self.show_labels(&id),
            Action::Ack { pr, update, checked } => {
                self.ask(Output::Send(Command::Acknowledge { pr, update, checked }));
                false
            },
            Action::Refresh => {
                self.ask(Output::Send(Command::Refresh));
                if self.bundled {
                    self.ask(Output::RequestPermission);
                }
                false
            },
            Action::Config => {
                self.open_settings(heading);
                self.present();
                true
            },
            Action::ConfigFile => {
                self.ask(Output::OpenConfigFile);
                false
            },
            Action::Logs => {
                self.ask(Output::OpenLogs);
                false
            },
            Action::Login => {
                self.ask(Output::ToggleLogin);
                true
            },
            Action::NotificationSettings => {
                self.ask(Output::OpenNotificationSettings);
                false
            },
            Action::CheckUpdates => {
                self.ask(Output::CheckUpdates);
                false
            },
            Action::Quit => {
                self.ask(Output::Log("quit".to_owned()));
                self.end("quit".to_owned());
                false
            },
        }
    }

    /// What a control of the inbox does.
    fn use_control(&mut self, press: Press, heading: &str) -> (r: bool)
        ensures
            (final(self)@, r) == old(self)@.used(press@, heading@),
    {
        proof {
            reveal(DeskView::used);
        }
        match press {
            Press::HotkeyEdit(edit) => {
                self.edit_keys(edit);
                true
            },
            Press::UpdateEdit(edit) => {
                self.ask(Output::EditUpdates(edit));
                true
            },
            Press::PopoverAction(action) => self.act(action, heading),
            Press::ToggleDetails(pr) => {
                self.toggle_details(&pr);
                true
            },
            Press::PrAction(request) => {
                self.ask(Output::Send(Command::PrAction(ActionCommand::Request(request))));
                false
            },
        }
    }

    /// What happens. The result says whether the inbox is to be drawn anew.
    fn handle(&mut self, event: AppEvent, around: &Around) -> (r: bool)
        ensures
            (final(self)@, r) == old(self)@.handled(event@, around@),
    {
        proof {
            reveal(DeskView::handled);
        }
        match event {
            AppEvent::Started => {
                self.tray = true;
                true
            },
            AppEvent::Worker(event) => self.report(event),
            AppEvent::UpdaterChanged => true,
            AppEvent::Shortcut(action) => self.perform(action),
            AppEvent::Escape => {
                self.escape();
                true
            },
            AppEvent::GlobalShortcut(key) => {
                if self.call_key(key, around.focused) {
                    self.toggle();
                }
                true
            },
            AppEvent::ShortcutRecorded { action, binding } => {
                self.record_key(action, binding);
                true
            },
            AppEvent::HighlightPr(id) => {
                self.highlight(id);
                true
            },
            AppEvent::Menu(id) => match self.menu_state.action(&id) {
                Some(action) => self.act(action, around.heading),
                None => false,
            },
            AppEvent::MenuClosed => false,
            AppEvent::Permission(granted) => {
                self.permit(granted);
                true
            },
            AppEvent::NotificationError(message) => {
                self.fail(message);
                true
            },
            AppEvent::TogglePopover => {
                self.toggle();
                true
            },
            AppEvent::Pressed(press) => self.use_control(press, around.heading),
            AppEvent::RefreshPopover => true,
            AppEvent::Opened { pr, update, error, listening } => {
                let result = match error {
                    None => Ok(()),
                    Some(message) => Err(message),
                };
                match macos::open_and_acknowledge(result, listening, &pr, &update) {
                    Ok(command) => {
                        self.ask(Output::Send(command));
                        false
                    },
                    Err(message) => {
                        self.fail(message);
                        true
                    },
                }
            },
            AppEvent::Failed(message) => {
                self.fail(message);
                true
            },
            AppEvent::Shutdown(reason) => {
                self.end(reason);
                false
            },
        }
    }

    /// The keyboard learns what the inbox shows.
    fn sync(&mut self)
        ensures
            final(self)@ == old(self)@.synchronized(),
    {
        let (inbox, settings) = self.popover.keyboard_context();
        let visible = self.popover.visible;
        self.keyboard.sync(visible, inbox, settings);
    }

    /// What is wrong, where anything is.
    fn error_text(&self) -> (r: Option<&str>)
        ensures
            exchange::account_view(r) == self@.error(),
    {
        match &self.service_error {
            Some(message) => Some(message.as_str()),
            None => match &self.ui_error {
                Some(message) => Some(message.as_str()),
                None => None,
            },
        }
    }

    /// A notification leads to its pull request.
    fn lead(&mut self, rebuild: bool, clock: u64) -> (r: bool)
        ensures
            (final(self)@, r) == old(self)@.led(rebuild, clock),
    {
        proof {
            reveal(DeskView::led);
        }
        if self.pending_reveal.is_none() || !self.tray {
            return rebuild;
        }
        if !self.popover.prepare_notification_reveal() {
            return rebuild;
        }
        self.popover.show();
        if let Some(pr) = self.pending_reveal.take() {
            self.popover.scroll_to_pr(pr, clock);
        }
        true
    }

    /// Draws the inbox anew.
    fn draw(&mut self, around: &Around)
        ensures
            final(self)@ == old(self)@.with_popover(old(self)@.popover.drawn(old(self)@.news(around@))),
    {
        if self.popover.is_showing_ignored() {
            let error = match &self.ignored_error {
                Some(message) => Some(message.as_str()),
                None => None,
            };
            self.popover.update(
                &News {
                    prs: &self.ignored_prs,
                    error,
                    bundled: self.bundled,
                    at_login: around.at_login,
                    loading: self.ignored_loading,
                    now: around.now,
                    times: around.times,
                },
            );
        } else {
            let error = match &self.service_error {
                Some(message) => Some(message.as_str()),
                None => match &self.ui_error {
                    Some(message) => Some(message.as_str()),
                    None => None,
                },
            };
            self.popover.update(
                &News {
                    prs: &self.prs,
                    error,
                    bundled: self.bundled,
                    at_login: around.at_login,
                    loading: self.refreshing,
                    now: around.now,
                    times: around.times,
                },
            );
        }
    }

    /// The flashing goes on.
    fn flash(&mut self, clock: u64)
        ensures
            final(self)@ == old(self)@.flashing(clock),
    {
        proof {
            reveal(DeskView::flashing);
        }
        if let Some(next) = self.popover.animate(clock as u128) {
            if !(self.shutting_down && self.worker_stopped) {
                self.ask(Output::WakeAt(next));
            }
        }
    }

    /// Replaces the menu where it may be.
    fn replace_menu(&mut self, rebuild: bool, around: &Around)
        ensures
            final(self)@ == old(self)@.with_menu(rebuild, around@),
    {
        proof {
            reveal(DeskView::with_menu);
        }
        if rebuild {
            self.menu_state.request_update();
        }
        if !self.menu_state.can_update() || !self.tray {
            return;
        }
        let failed = self.error_text().is_some();
        let entries = menu::menu(
            &self.prs,
            self.error_text(),
            self.dev,
            self.bundled,
            around.at_login,
            around.updates,
            around.now,
            around.times,
        );
        let state = menu_bar_state(&self.prs, failed);
        let named = text::concat3(identity::name(self.dev), " · ", &text::decimal(self.prs.len() as u64));
        let updates = text::concat(&text::decimal(count_updates(&self.prs)), " updates");
        let tooltip = text::concat3(&named, " PRs · ", &updates);
        let output = Output::Bar { entries, state, failed, tooltip };
        assert(output@->tooltip =~= self@.bar(around@)->tooltip);
        self.ask(output);
    }

    /// What follows whatever has happened.
    fn settle(&mut self, rebuild: bool, around: &Around)
        ensures
            final(self)@ == old(self)@.settled(rebuild, around@),
    {
        proof {
            reveal(DeskView::settled);
        }
        self.learn_updates(around.updates);
        self.sync();
        self.learn_keyboard();
        let rebuild = self.lead(rebuild, around.clock);
        if rebuild {
            self.draw(around);
        }
        self.sync();
        self.flash(around.clock);
        self.replace_menu(rebuild, around);
    }

    /// Something happens.
    pub fn step(&mut self, event: AppEvent, around: &Around)
        ensures
            final(self)@ == old(self)@.stepped(event@, around@),
    {
        if self.shutting_down {
            match &event {
                AppEvent::Worker(_) | AppEvent::Shutdown(_) => {},
                _ => {
                    return;
                },
            }
        }
        let rebuild = self.handle(event, around);
        self.settle(rebuild, around);
    }
}

/// Parts notifications: those that stay, and those that are withdrawn.
fn part(pending: Vec<Announcement>, ids: &Vec<String>) -> (r: (Vec<Announcement>, Vec<Announcement>))
    ensures
        r.0.deep_view() == chosen(pending.deep_view(), ids.deep_view(), false),
        r.1.deep_view() == chosen(pending.deep_view(), ids.deep_view(), true),
{
    let ghost v = pending.deep_view();
    let ghost count = pending@.len();
    let mut rest = pending;
    let mut kept: Vec<Announcement> = Vec::new();
    let mut dropped: Vec<Announcement> = Vec::new();
    let ghost mut done: int = 0;
    assert(kept.deep_view() =~= chosen(v.take(0), ids.deep_view(), false));
    assert(dropped.deep_view() =~= chosen(v.take(0), ids.deep_view(), true));
    assert(rest.deep_view() =~= v.skip(0));
    while rest.len() > 0
        invariant
            0 <= done <= count,
            v.len() == count,
            rest@.len() == count - done,
            rest.deep_view() =~= v.skip(done),
            kept.deep_view() =~= chosen(v.take(done), ids.deep_view(), false),
            dropped.deep_view() =~= chosen(v.take(done), ids.deep_view(), true),
        decreases rest.len(),
    {
        let ghost before = rest.deep_view();
        let first = rest.remove(0);
        assert(before[0] == first@);
        assert(v.skip(done)[0] == v[done]);
        assert(rest.deep_view() =~= before.skip(1));
        assert(v.skip(done).skip(1) =~= v.skip(done + 1));
        assert(v.take(done + 1).drop_last() =~= v.take(done));
        assert(v.take(done + 1).last() == first@);
        if is_listed(ids, &first.id) {
            let ghost listed = dropped.deep_view();
            dropped.push(first);
            assert(dropped.deep_view() =~= listed.push(first@));
        } else {
            let ghost listed = kept.deep_view();
            kept.push(first);
            assert(kept.deep_view() =~= listed.push(first@));
        }
        proof {
            done = done + 1;
        }
    }
    assert(v.take(done) =~= v);
    (kept, dropped)
}

/// Whether a text stands in a list.
fn is_listed(ids: &Vec<String>, id: &str) -> (r: bool)
    ensures
        r == ids.deep_view().contains(id@),
{
    let ghost v = ids.deep_view();
    let mut i: usize = 0;
    while i < ids.len()
        invariant
            v == ids.deep_view(),
            i <= ids@.len(),
            forall|k: int| 0 <= k < i ==> v[k] != id@,
        decreases ids.len() - i,
    {
        if text::same(&ids[i], id) {
            assert(v[i as int] == id@);
            return true;
        }
        i += 1;
    }
    false
}

} // verus!
