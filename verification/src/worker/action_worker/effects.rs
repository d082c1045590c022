//! What a coordinator is told, and what it asks for.

use crate::actions::{
    ActionState, ActionStateView, LabelCatalogue, LabelCatalogueView, MergeMethod, Preferences, Request, RequestView,
};
use crate::config::{Config, ConfigView};
use crate::github::fields;
use crate::github::{PrRef, PrRefView};
use crate::model::{PrLabel, PrLabelView, PullRequest, PullRequestView, Snapshot, SnapshotView};
use crate::store::Store;
use crate::text_map::{Duplicate, TextMap};
use vstd::prelude::*;

verus! {

/// What a coordinator is told: a request of the user, or the answer to something that it
/// asked for.
pub enum ActionCommand {
    Request(Request),
    /// The preferences of a repository were written down, or not.
    Configured { repo: String, preferences: Preferences, result: Result<(), String> },
    /// A second of a countdown has passed.
    Tick { pr: String, token: u64, remaining: u8 },
    /// The account was verified before and after the snapshot was taken.
    MergeChecked { pr: String, token: u64, result: Result<Box<Snapshot>, String> },
    Merged { pr: String, token: u64, result: Result<(), String> },
    LabelsLoaded { repo: String, token: u64, result: Result<Vec<PrLabel>, String> },
    /// The account was verified.
    LabelChecked { pr: String, token: u64, result: Result<(), String> },
    LabelDone { pr: String, token: u64, result: Result<(), String> },
}

/// The contents of an [`ActionCommand`].
pub enum ActionCommandView {
    Request(RequestView),
    Configured { repo: Seq<char>, preferences: Preferences, saved: Result<(), Seq<char>> },
    Tick { pr: Seq<char>, token: u64, remaining: u8 },
    MergeChecked { pr: Seq<char>, token: u64, checked: Result<SnapshotView, Seq<char>> },
    Merged { pr: Seq<char>, token: u64, merged: Result<(), Seq<char>> },
    LabelsLoaded { repo: Seq<char>, token: u64, loaded: Result<Seq<PrLabelView>, Seq<char>> },
    LabelChecked { pr: Seq<char>, token: u64, verified: Result<(), Seq<char>> },
    LabelDone { pr: Seq<char>, token: u64, done: Result<(), Seq<char>> },
}

impl View for ActionCommand {
    type V = ActionCommandView;

    open spec fn view(&self) -> ActionCommandView {
        match self {
            ActionCommand::Request(request) => ActionCommandView::Request(request@),
            ActionCommand::Configured { repo, preferences, result } => ActionCommandView::Configured {
                repo: repo@,
                preferences: *preferences,
                saved: fields::result_view(*result),
            },
            ActionCommand::Tick { pr, token, remaining } => ActionCommandView::Tick {
                pr: pr@,
                token: *token,
                remaining: *remaining,
            },
            ActionCommand::MergeChecked { pr, token, result } => ActionCommandView::MergeChecked {
                pr: pr@,
                token: *token,
                checked: match result {
                    Ok(snapshot) => Ok(snapshot@),
                    Err(message) => Err(message@),
                },
            },
            ActionCommand::Merged { pr, token, result } => ActionCommandView::Merged {
                pr: pr@,
                token: *token,
                merged: fields::result_view(*result),
            },
            ActionCommand::LabelsLoaded { repo, token, result } => ActionCommandView::LabelsLoaded {
                repo: repo@,
                token: *token,
                loaded: fields::result_view(*result),
            },
            ActionCommand::LabelChecked { pr, token, result } => ActionCommandView::LabelChecked {
                pr: pr@,
                token: *token,
                verified: fields::result_view(*result),
            },
            ActionCommand::LabelDone { pr, token, result } => ActionCommandView::LabelDone {
                pr: pr@,
                token: *token,
                done: fields::result_view(*result),
            },
        }
    }
}

impl DeepView for ActionCommand {
    type V = ActionCommandView;

    open spec fn deep_view(&self) -> ActionCommandView {
        self@
    }
}

/// What a coordinator asks for. The answer to what is not answered at once is an
/// [`ActionCommand`] with the same token.
pub enum Effect {
    /// Shows the state.
    Publish(ActionState),
    /// Says that a request about a label was handled, accepted or not.
    LabelRequestHandled,
    /// Writes the preferences of a repository down, at once.
    SavePreferences { repo: String, preferences: Preferences },
    SaveCatalogue { viewer: String, repo: String, catalogue: LabelCatalogue },
    /// Counts five seconds down.
    Countdown { pr: String, token: u64 },
    /// Verifies the account, takes a snapshot and verifies the account again.
    CheckMerge { pr: String, token: u64, reference: PrRef, viewer: String },
    SubmitMerge { pr: String, token: u64, reference: PrRef, head: String, method: MergeMethod },
    /// Verifies the account once, fetches the labels of each repository and verifies the
    /// account again.
    LoadCatalogues { viewer: String, jobs: Vec<(String, u64)> },
    /// Verifies the account.
    CheckLabel { pr: String, token: u64, viewer: String },
    /// Answers that a label may not be changed.
    RejectLabel { pr: String, token: u64 },
    SubmitLabel { pr: String, token: u64, reference: PrRef, name: String, selected: bool },
    /// Asks for a new discovery.
    Refresh,
    /// Says that a label was changed.
    LabelSaved { pr: String, viewer: String, label: PrLabel, selected: bool },
}

/// The contents of an [`Effect`].
pub enum EffectView {
    Publish(ActionStateView),
    LabelRequestHandled,
    SavePreferences { repo: Seq<char>, preferences: Preferences },
    SaveCatalogue { viewer: Seq<char>, repo: Seq<char>, catalogue: LabelCatalogueView },
    Countdown { pr: Seq<char>, token: u64 },
    CheckMerge { pr: Seq<char>, token: u64, reference: PrRefView, viewer: Seq<char> },
    SubmitMerge { pr: Seq<char>, token: u64, reference: PrRefView, head: Seq<char>, method: MergeMethod },
    LoadCatalogues { viewer: Seq<char>, jobs: Seq<(Seq<char>, u64)> },
    CheckLabel { pr: Seq<char>, token: u64, viewer: Seq<char> },
    RejectLabel { pr: Seq<char>, token: u64 },
    SubmitLabel { pr: Seq<char>, token: u64, reference: PrRefView, name: Seq<char>, selected: bool },
    Refresh,
    LabelSaved { pr: Seq<char>, viewer: Seq<char>, label: PrLabelView, selected: bool },
}

impl View for Effect {
    type V = EffectView;

    open spec fn view(&self) -> EffectView {
        match self {
            Effect::Publish(state) => EffectView::Publish(state@),
            Effect::LabelRequestHandled => EffectView::LabelRequestHandled,
            Effect::SavePreferences { repo, preferences } => EffectView::SavePreferences {
                repo: repo@,
                preferences: *preferences,
            },
            Effect::SaveCatalogue { viewer, repo, catalogue } => EffectView::SaveCatalogue {
                viewer: viewer@,
                repo: repo@,
                catalogue: catalogue@,
            },
            Effect::Countdown { pr, token } => EffectView::Countdown { pr: pr@, token: *token },
            Effect::CheckMerge { pr, token, reference, viewer } => EffectView::CheckMerge {
                pr: pr@,
                token: *token,
                reference: reference@,
                viewer: viewer@,
            },
            Effect::SubmitMerge { pr, token, reference, head, method } => EffectView::SubmitMerge {
                pr: pr@,
                token: *token,
                reference: reference@,
                head: head@,
                method: *method,
            },
            Effect::LoadCatalogues { viewer, jobs } => EffectView::LoadCatalogues {
                viewer: viewer@,
                jobs: jobs.deep_view(),
            },
            Effect::CheckLabel { pr, token, viewer } => EffectView::CheckLabel {
                pr: pr@,
                token: *token,
                viewer: viewer@,
            },
            Effect::RejectLabel { pr, token } => EffectView::RejectLabel { pr: pr@, token: *token },
            Effect::SubmitLabel { pr, token, reference, name, selected } => EffectView::SubmitLabel {
                pr: pr@,
                token: *token,
                reference: reference@,
                name: name@,
                selected: *selected,
            },
            Effect::Refresh => EffectView::Refresh,
            Effect::LabelSaved { pr, viewer, label, selected } => EffectView::LabelSaved {
                pr: pr@,
                viewer: viewer@,
                label: label@,
                selected: *selected,
            },
        }
    }
}

impl DeepView for Effect {
    type V = EffectView;

    open spec fn deep_view(&self) -> EffectView {
        self@
    }
}

/// What a coordinator looks at: the pull requests that are monitored, the account, the
/// settings, what is kept, the time in seconds since the epoch, a clock in milliseconds that
/// never goes back, and whether requests to GitHub are paused.
pub struct Context<'a> {
    pub store: &'a Store,
    pub prs: &'a TextMap<PullRequest>,
    pub viewer: Option<&'a str>,
    pub config: &'a Config,
    pub now: i64,
    pub clock: u64,
    pub paused: bool,
}

/// The contents of a [`Context`].
#[verifier::ext_equal]
pub struct ContextView {
    pub catalogues: Map<Seq<char>, Map<Seq<char>, LabelCatalogueView>>,
    pub prs: Map<Seq<char>, PullRequestView>,
    pub viewer: Option<Seq<char>>,
    pub config: ConfigView,
    pub now: i64,
    pub clock: u64,
    pub paused: bool,
}

impl<'a> View for Context<'a> {
    type V = ContextView;

    open spec fn view(&self) -> ContextView {
        ContextView {
            catalogues: self.store@.catalogues,
            prs: self.prs@,
            viewer: match self.viewer {
                Some(viewer) => Some(viewer@),
                None => None,
            },
            config: self.config@,
            now: self.now,
            clock: self.clock,
            paused: self.paused,
        }
    }
}

/// A change that the user asked for, with what it was based on.
pub struct Intent {
    pub token: u64,
    pub pr: PullRequest,
    pub viewer: String,
    pub preferences: Preferences,
}

/// The contents of an [`Intent`].
#[verifier::ext_equal]
pub struct IntentView {
    pub token: u64,
    pub pr: PullRequestView,
    pub viewer: Seq<char>,
    pub preferences: Preferences,
}

impl View for Intent {
    type V = IntentView;

    open spec fn view(&self) -> IntentView {
        IntentView { token: self.token, pr: self.pr@, viewer: self.viewer@, preferences: self.preferences }
    }
}

impl DeepView for Intent {
    type V = IntentView;

    open spec fn deep_view(&self) -> IntentView {
        self@
    }
}

impl Clone for Intent {
    fn clone(&self) -> (r: Self)
        ensures
            r@ == self@,
    {
        Intent {
            token: self.token,
            pr: self.pr.clone(),
            viewer: self.viewer.clone(),
            preferences: self.preferences,
        }
    }
}

impl Duplicate for Intent {
    fn duplicate(&self) -> (r: Intent) {
        self.clone()
    }
}

impl IntentView {
    /// The pull request by its identity.
    pub open spec fn target(self) -> PrRefView {
        PrRefView { id: self.pr.snapshot.id, repo: self.pr.snapshot.repo, number: self.pr.snapshot.number }
    }
}

impl Intent {
    /// The pull request by its identity.
    pub fn reference(&self) -> (r: PrRef)
        ensures
            r@ == self@.target(),
    {
        PrRef {
            id: self.pr.snapshot.id.clone(),
            repo: self.pr.snapshot.repo.clone(),
            number: self.pr.snapshot.number,
        }
    }
}

/// A change of a label, with what it was before.
pub struct LabelJob {
    pub intent: Intent,
    pub name: String,
    pub color: String,
    pub selected: bool,
    pub previous: bool,
}

/// The contents of a [`LabelJob`].
#[verifier::ext_equal]
pub struct LabelJobView {
    pub intent: IntentView,
    pub name: Seq<char>,
    pub color: Seq<char>,
    pub selected: bool,
    pub previous: bool,
}

impl View for LabelJob {
    type V = LabelJobView;

    open spec fn view(&self) -> LabelJobView {
        LabelJobView {
            intent: self.intent@,
            name: self.name@,
            color: self.color@,
            selected: self.selected,
            previous: self.previous,
        }
    }
}

impl DeepView for LabelJob {
    type V = LabelJobView;

    open spec fn deep_view(&self) -> LabelJobView {
        self@
    }
}

impl Clone for LabelJob {
    fn clone(&self) -> (r: Self)
        ensures
            r@ == self@,
    {
        LabelJob {
            intent: self.intent.clone(),
            name: self.name.clone(),
            color: self.color.clone(),
            selected: self.selected,
            previous: self.previous,
        }
    }
}

impl Duplicate for LabelJob {
    fn duplicate(&self) -> (r: LabelJob) {
        self.clone()
    }
}

} // verus!
