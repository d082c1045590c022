//! What the worker is told, what it shows, and what it asks for.

use crate::actions::{ActionState, ActionStateView};
use crate::github::fields;
use crate::github::{PrRef, PrRefView};
use crate::hotkeys;
use crate::model::{PrLabel, PrLabelView, PullRequest, PullRequestView, Snapshot, SnapshotView};
use crate::worker::action_worker::effects::{ActionCommand, ActionCommandView, Effect, EffectView};
use vstd::prelude::*;

verus! {

/// What is shown to the user.
pub enum UiEvent {
    /// Sent after the state that shows what became of a request about a label.
    LabelRequestHandled,
    ActionsChanged(ActionState),
    IgnoredUpdated { prs: Vec<PullRequest>, error: Option<String>, loading: bool },
    Updated { prs: Vec<PullRequest>, error: Option<String>, loading: bool },
    Notify { review: bool, id: String, title: String, body: String },
    DismissNotifications(Vec<String>),
    Open { url: String, pr: String, update: String },
    /// Shows the inbox, at a pull request where it is known.
    ShowPopover { pr: Option<String> },
    HotkeysLoaded { preferences: hotkeys::Preferences, error: Option<String> },
    HotkeysSaved(Result<(), String>),
    Stopped,
}

/// The contents of a [`UiEvent`].
pub enum UiEventView {
    LabelRequestHandled,
    ActionsChanged(ActionStateView),
    IgnoredUpdated { prs: Seq<PullRequestView>, error: Option<Seq<char>>, loading: bool },
    Updated { prs: Seq<PullRequestView>, error: Option<Seq<char>>, loading: bool },
    Notify { review: bool, id: Seq<char>, title: Seq<char>, body: Seq<char> },
    DismissNotifications(Seq<Seq<char>>),
    Open { url: Seq<char>, pr: Seq<char>, update: Seq<char> },
    ShowPopover { pr: Option<Seq<char>> },
    HotkeysLoaded { preferences: hotkeys::PreferencesView, error: Option<Seq<char>> },
    HotkeysSaved(Result<(), Seq<char>>),
    Stopped,
}

impl View for UiEvent {
    type V = UiEventView;

    open spec fn view(&self) -> UiEventView {
        match self {
            UiEvent::LabelRequestHandled => UiEventView::LabelRequestHandled,
            UiEvent::ActionsChanged(state) => UiEventView::ActionsChanged(state@),
            UiEvent::IgnoredUpdated { prs, error, loading } => UiEventView::IgnoredUpdated {
                prs: prs.deep_view(),
                error: error.deep_view(),
                loading: *loading,
            },
            UiEvent::Updated { prs, error, loading } => UiEventView::Updated {
                prs: prs.deep_view(),
                error: error.deep_view(),
                loading: *loading,
            },
            UiEvent::Notify { review, id, title, body } => UiEventView::Notify {
                review: *review,
                id: id@,
                title: title@,
                body: body@,
            },
            UiEvent::DismissNotifications(ids) => UiEventView::DismissNotifications(ids.deep_view()),
            UiEvent::Open { url, pr, update } => UiEventView::Open { url: url@, pr: pr@, update: update@ },
            UiEvent::ShowPopover { pr } => UiEventView::ShowPopover { pr: pr.deep_view() },
            UiEvent::HotkeysLoaded { preferences, error } => UiEventView::HotkeysLoaded {
                preferences: preferences@,
                error: error.deep_view(),
            },
            UiEvent::HotkeysSaved(result) => UiEventView::HotkeysSaved(fields::result_view(*result)),
            UiEvent::Stopped => UiEventView::Stopped,
        }
    }
}

impl DeepView for UiEvent {
    type V = UiEventView;

    open spec fn deep_view(&self) -> UiEventView {
        self@
    }
}

/// What a poll has brought: the account, the pull requests that are monitored, whether they
/// were discovered anew, and a snapshot or an error for each of them.
pub struct Batch {
    pub viewer: String,
    pub references: Vec<PrRef>,
    pub discovered: bool,
    pub results: Vec<(String, Result<Snapshot, String>)>,
}

/// What a poll has brought of one pull request.
pub type PollResult = (Seq<char>, Result<SnapshotView, Seq<char>>);

/// The contents of a [`Batch`].
#[verifier::ext_equal]
pub struct BatchView {
    pub viewer: Seq<char>,
    pub references: Seq<PrRefView>,
    pub discovered: bool,
    pub results: Seq<PollResult>,
}

/// The contents of results.
pub open spec fn results_view(results: Seq<(String, Result<Snapshot, String>)>) -> Seq<PollResult> {
    results.map_values(
        |r: (String, Result<Snapshot, String>)|
            (
                r.0@,
                match r.1 {
                    Ok(snapshot) => Ok(snapshot@),
                    Err(message) => Err(message@),
                },
            ),
    )
}

impl View for Batch {
    type V = BatchView;

    open spec fn view(&self) -> BatchView {
        BatchView {
            viewer: self.viewer@,
            references: self.references.deep_view(),
            discovered: self.discovered,
            results: results_view(self.results@),
        }
    }
}

/// What the worker is told.
pub enum Command {
    PrAction(ActionCommand),
    LabelSaved { pr: String, viewer: String, label: PrLabel, selected: bool },
    Refresh,
    /// The time of a poll has come.
    Poll,
    Acknowledge { pr: String, update: String, checked: bool },
    Ignore(String),
    ShowIgnored,
    CheckIgnored,
    Restore(String),
    IgnoredDetailsLoaded(Result<Vec<Snapshot>, String>),
    /// The user opens a notification's pull request, or acknowledges its update and may want
    /// to see it in the inbox.
    NotificationAction { id: String, open: bool, reveal: bool },
    NotificationDelivered(String),
    NotificationFailed(String),
    SaveHotkeys(hotkeys::Preferences),
    /// Shortcuts were written down, or not.
    HotkeysWritten { preferences: hotkeys::Preferences, result: Result<(), String> },
    Shutdown,
    PollComplete(Result<Batch, String>),
}

/// The contents of a [`Command`].
pub enum CommandView {
    PrAction(ActionCommandView),
    LabelSaved { pr: Seq<char>, viewer: Seq<char>, label: PrLabelView, selected: bool },
    Refresh,
    Poll,
    Acknowledge { pr: Seq<char>, update: Seq<char>, checked: bool },
    Ignore(Seq<char>),
    ShowIgnored,
    CheckIgnored,
    Restore(Seq<char>),
    IgnoredDetailsLoaded(Result<Seq<SnapshotView>, Seq<char>>),
    NotificationAction { id: Seq<char>, open: bool, reveal: bool },
    NotificationDelivered(Seq<char>),
    NotificationFailed(Seq<char>),
    SaveHotkeys(hotkeys::PreferencesView),
    HotkeysWritten { preferences: hotkeys::PreferencesView, result: Result<(), Seq<char>> },
    Shutdown,
    PollComplete(Result<BatchView, Seq<char>>),
}

impl View for Command {
    type V = CommandView;

    open spec fn view(&self) -> CommandView {
        match self {
            Command::PrAction(command) => CommandView::PrAction(command@),
            Command::LabelSaved { pr, viewer, label, selected } => CommandView::LabelSaved {
                pr: pr@,
                viewer: viewer@,
                label: label@,
                selected: *selected,
            },
            Command::Refresh => CommandView::Refresh,
            Command::Poll => CommandView::Poll,
            Command::Acknowledge { pr, update, checked } => CommandView::Acknowledge {
                pr: pr@,
                update: update@,
                checked: *checked,
            },
            Command::Ignore(id) => CommandView::Ignore(id@),
            Command::ShowIgnored => CommandView::ShowIgnored,
            Command::CheckIgnored => CommandView::CheckIgnored,
            Command::Restore(id) => CommandView::Restore(id@),
            Command::IgnoredDetailsLoaded(result) => CommandView::IgnoredDetailsLoaded(fields::result_view(*result)),
            Command::NotificationAction { id, open, reveal } => CommandView::NotificationAction {
                id: id@,
                open: *open,
                reveal: *reveal,
            },
            Command::NotificationDelivered(id) => CommandView::NotificationDelivered(id@),
            Command::NotificationFailed(id) => CommandView::NotificationFailed(id@),
            Command::SaveHotkeys(preferences) => CommandView::SaveHotkeys(preferences@),
            Command::HotkeysWritten { preferences, result } => CommandView::HotkeysWritten {
                preferences: preferences@,
                result: fields::result_view(*result),
            },
            Command::Shutdown => CommandView::Shutdown,
            Command::PollComplete(result) => CommandView::PollComplete(
                match result {
                    Ok(batch) => Ok(batch@),
                    Err(message) => Err(message@),
                },
            ),
        }
    }
}

impl DeepView for Command {
    type V = CommandView;

    open spec fn deep_view(&self) -> CommandView {
        self@
    }
}

/// What the worker asks for. What is not answered at once is answered with a [`Command`].
pub enum Output {
    Ui(UiEvent),
    /// Work on a pull request or a repository.
    Work(Effect),
    /// Writes shortcuts down, at once.
    WriteHotkeys(hotkeys::Preferences),
    /// Fetches the pull requests that are monitored, after a discovery where one is wanted
    /// or the account is another one.
    Poll { references: Vec<PrRef>, discover: bool, viewer: Option<String>, ignored: Vec<String> },
    /// Looks ignored pull requests up.
    LookUp(Vec<String>),
}

/// The contents of an [`Output`].
pub enum OutputView {
    Ui(UiEventView),
    Work(EffectView),
    WriteHotkeys(hotkeys::PreferencesView),
    Poll { references: Seq<PrRefView>, discover: bool, viewer: Option<Seq<char>>, ignored: Seq<Seq<char>> },
    LookUp(Seq<Seq<char>>),
}

impl View for Output {
    type V = OutputView;

    open spec fn view(&self) -> OutputView {
        match self {
            Output::Ui(event) => OutputView::Ui(event@),
            Output::Work(effect) => OutputView::Work(effect@),
            Output::WriteHotkeys(preferences) => OutputView::WriteHotkeys(preferences@),
            Output::Poll { references, discover, viewer, ignored } => OutputView::Poll {
                references: references.deep_view(),
                discover: *discover,
                viewer: viewer.deep_view(),
                ignored: ignored.deep_view(),
            },
            Output::LookUp(ids) => OutputView::LookUp(ids.deep_view()),
        }
    }
}

impl DeepView for Output {
    type V = OutputView;

    open spec fn deep_view(&self) -> OutputView {
        self@
    }
}

} // verus!
