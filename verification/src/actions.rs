//! Repository action preferences, and the state of actions that the interface shows.

use crate::model::{CheckState, PrLabel, PrLabelView, PullRequest, PullRequestView, State};
use crate::text;
use crate::text_map;
use crate::text_map::{Comparable, Duplicate, TextMap};
use vstd::prelude::*;

verus! {

/// The kinds of actions.
#[derive(Clone, Copy, Debug, PartialEq, Eq, Structural)]
pub enum Kind {
    Merge,
    Label,
}

/// When an action is offered.
#[derive(Clone, Copy, Debug, PartialEq, Eq, Structural)]
pub enum Condition {
    Always,
    Reviewing,
    Comments,
    Approved,
}

impl Default for Condition {
    fn default() -> (r: Self)
        ensures
            r == Condition::Always,
    {
        Condition::Always
    }
}

impl Condition {
    /// The conditions in the order in which they are offered.
    pub const ALL: [Condition; 4] = [Condition::Always, Condition::Reviewing, Condition::Comments, Condition::Approved];

    /// The name shown for a condition.
    pub open spec fn label_text(self) -> Seq<char> {
        match self {
            Condition::Always => "Always"@,
            Condition::Reviewing => "Reviewing"@,
            Condition::Comments => "Comments"@,
            Condition::Approved => "Approved"@,
        }
    }

    /// Whether a state meets a condition.
    pub open spec fn holds(self, state: State) -> bool {
        match self {
            Condition::Always => true,
            Condition::Reviewing => state == State::Reviewing,
            Condition::Comments => state == State::Comments,
            Condition::Approved => state == State::Approved,
        }
    }

    /// The name shown for a condition.
    pub fn label(self) -> (r: &'static str)
        ensures
            r@ == self.label_text(),
    {
        match self {
            Condition::Always => "Always",
            Condition::Reviewing => "Reviewing",
            Condition::Comments => "Comments",
            Condition::Approved => "Approved",
        }
    }

    /// Whether a state meets a condition.
    pub fn matches(self, state: State) -> (r: bool)
        ensures
            r == self.holds(state),
    {
        match self {
            Condition::Always => true,
            Condition::Reviewing => state == State::Reviewing,
            Condition::Comments => state == State::Comments,
            Condition::Approved => state == State::Approved,
        }
    }
}

/// How a pull request is merged.
#[derive(Clone, Copy, Debug, PartialEq, Eq, Structural)]
pub enum MergeMethod {
    Merge,
    Squash,
    Rebase,
}

impl Default for MergeMethod {
    fn default() -> (r: Self)
        ensures
            r == MergeMethod::Merge,
    {
        MergeMethod::Merge
    }
}

impl MergeMethod {
    /// The methods in the order in which they are offered.
    pub const ALL: [MergeMethod; 3] = [MergeMethod::Merge, MergeMethod::Squash, MergeMethod::Rebase];

    /// The name shown for a method.
    pub open spec fn label_text(self) -> Seq<char> {
        match self {
            MergeMethod::Merge => "Merge commit"@,
            MergeMethod::Squash => "Squash"@,
            MergeMethod::Rebase => "Rebase"@,
        }
    }

    /// The name that GitHub has for a method.
    pub open spec fn api_text(self) -> Seq<char> {
        match self {
            MergeMethod::Merge => "merge"@,
            MergeMethod::Squash => "squash"@,
            MergeMethod::Rebase => "rebase"@,
        }
    }

    /// The name shown for a method.
    pub fn label(self) -> (r: &'static str)
        ensures
            r@ == self.label_text(),
    {
        match self {
            MergeMethod::Merge => "Merge commit",
            MergeMethod::Squash => "Squash",
            MergeMethod::Rebase => "Rebase",
        }
    }

    /// The name that GitHub has for a method.
    pub fn api_name(self) -> (r: &'static str)
        ensures
            r@ == self.api_text(),
    {
        match self {
            MergeMethod::Merge => "merge",
            MergeMethod::Squash => "squash",
            MergeMethod::Rebase => "rebase",
        }
    }
}

/// Whether an action is enabled, and when it is offered.
#[derive(Clone, Copy, Debug, PartialEq, Eq, Structural)]
pub struct Rule {
    pub enabled: bool,
    pub condition: Condition,
}

impl Default for Rule {
    fn default() -> (r: Self)
        ensures
            r == (Rule { enabled: false, condition: Condition::Always }),
    {
        Rule { enabled: false, condition: Condition::Always }
    }
}

/// The preferences of a repository.
#[derive(Clone, Copy, Debug, PartialEq, Eq, Structural)]
pub struct Preferences {
    pub merge: Rule,
    pub label: Rule,
    pub merge_method: MergeMethod,
}

impl DeepView for Preferences {
    type V = Preferences;

    open spec fn deep_view(&self) -> Preferences {
        *self
    }
}

/// A change of preferences.
#[derive(Clone, Copy, Debug, PartialEq, Eq, Structural)]
pub enum Setting {
    Enabled(Kind, bool),
    Condition(Kind, Condition),
    MergeMethod(MergeMethod),
}

impl Default for Preferences {
    fn default() -> (r: Self)
        ensures
            r == Preferences::initial(),
    {
        Preferences {
            merge: Rule { enabled: false, condition: Condition::Approved },
            label: Rule { enabled: false, condition: Condition::Always },
            merge_method: MergeMethod::Merge,
        }
    }
}

impl Preferences {
    /// The preferences of a repository that was never configured: nothing is enabled.
    pub open spec fn initial() -> Preferences {
        Preferences {
            merge: Rule { enabled: false, condition: Condition::Approved },
            label: Rule { enabled: false, condition: Condition::Always },
            merge_method: MergeMethod::Merge,
        }
    }

    /// The rule of an action.
    pub open spec fn rule_of(self, kind: Kind) -> Rule {
        match kind {
            Kind::Merge => self.merge,
            Kind::Label => self.label,
        }
    }

    /// Whether an action may be performed: it is enabled, its condition is met by current
    /// evidence about an open pull request, and what is to be merged is neither a draft nor
    /// in conflict.
    pub open spec fn allowed(self, kind: Kind, pr: PullRequestView) -> bool {
        let rule = self.rule_of(kind);
        &&& rule.enabled
        &&& !pr.stale
        &&& pr.snapshot.open
        &&& rule.condition.holds(pr.state)
        &&& kind == Kind::Merge ==> !pr.snapshot.draft && pr.snapshot.check_state != Some(CheckState::Conflicts)
    }

    /// The preferences after a change.
    pub open spec fn changed(self, change: Setting) -> Preferences {
        match change {
            Setting::Enabled(Kind::Merge, value) => Preferences { merge: Rule { enabled: value, ..self.merge }, ..self },
            Setting::Enabled(Kind::Label, value) => Preferences { label: Rule { enabled: value, ..self.label }, ..self },
            Setting::Condition(Kind::Merge, value) => Preferences {
                merge: Rule { condition: value, ..self.merge },
                ..self
            },
            Setting::Condition(Kind::Label, value) => Preferences {
                label: Rule { condition: value, ..self.label },
                ..self
            },
            Setting::MergeMethod(value) => Preferences { merge_method: value, ..self },
        }
    }

    /// The rule of an action.
    pub fn rule(&self, kind: Kind) -> (r: &Rule)
        ensures
            *r == self.rule_of(kind),
    {
        match kind {
            Kind::Merge => &self.merge,
            Kind::Label => &self.label,
        }
    }

    /// Whether an action may be performed.
    pub fn allows(&self, kind: Kind, pr: &PullRequest) -> (r: bool)
        ensures
            r == self.allowed(kind, pr@),
    {
        let rule = self.rule(kind);
        let conflicts = match pr.snapshot.check_state {
            Some(state) => state == CheckState::Conflicts,
            None => false,
        };
        rule.enabled && !pr.stale && pr.snapshot.open && rule.condition.matches(pr.state) && (kind != Kind::Merge || (
        !pr.snapshot.draft && !conflicts))
    }

    /// Changes the preferences.
    pub fn apply(&mut self, change: &Setting)
        ensures
            *final(self) == old(self).changed(*change),
    {
        match *change {
            Setting::Enabled(Kind::Merge, value) => {
                self.merge.enabled = value;
            },
            Setting::Enabled(Kind::Label, value) => {
                self.label.enabled = value;
            },
            Setting::Condition(Kind::Merge, value) => {
                self.merge.condition = value;
            },
            Setting::Condition(Kind::Label, value) => {
                self.label.condition = value;
            },
            Setting::MergeMethod(value) => {
                self.merge_method = value;
            },
        }
    }
}

/// A request of the user about an action.
#[derive(Debug)]
pub enum Request {
    Configure { repo: String, change: Setting },
    Merge { pr: String, head: String, update: String },
    CancelMerge(String),
    LoadLabels(String),
    Label { pr: String, name: String, selected: bool },
}

/// The contents of a [`Request`].
pub enum RequestView {
    Configure { repo: Seq<char>, change: Setting },
    Merge { pr: Seq<char>, head: Seq<char>, update: Seq<char> },
    CancelMerge(Seq<char>),
    LoadLabels(Seq<char>),
    Label { pr: Seq<char>, name: Seq<char>, selected: bool },
}

impl View for Request {
    type V = RequestView;

    open spec fn view(&self) -> RequestView {
        match self {
            Request::Configure { repo, change } => RequestView::Configure { repo: repo@, change: *change },
            Request::Merge { pr, head, update } => RequestView::Merge { pr: pr@, head: head@, update: update@ },
            Request::CancelMerge(pr) => RequestView::CancelMerge(pr@),
            Request::LoadLabels(pr) => RequestView::LoadLabels(pr@),
            Request::Label { pr, name, selected } => RequestView::Label { pr: pr@, name: name@, selected: *selected },
        }
    }
}

impl DeepView for Request {
    type V = RequestView;

    open spec fn deep_view(&self) -> RequestView {
        self@
    }
}

impl Clone for Request {
    fn clone(&self) -> (r: Self)
        ensures
            r@ == self@,
    {
        match self {
            Request::Configure { repo, change } => Request::Configure { repo: repo.clone(), change: *change },
            Request::Merge { pr, head, update } => Request::Merge {
                pr: pr.clone(),
                head: head.clone(),
                update: update.clone(),
            },
            Request::CancelMerge(pr) => Request::CancelMerge(pr.clone()),
            Request::LoadLabels(pr) => Request::LoadLabels(pr.clone()),
            Request::Label { pr, name, selected } => Request::Label {
                pr: pr.clone(),
                name: name.clone(),
                selected: *selected,
            },
        }
    }
}

/// A label that may be chosen.
#[derive(Debug, PartialEq, Eq)]
pub struct Label {
    pub name: String,
    pub color: String,
    pub selected: bool,
}

/// The contents of a [`Label`].
#[verifier::ext_equal]
pub struct LabelView {
    pub name: Seq<char>,
    pub color: Seq<char>,
    pub selected: bool,
}

impl View for Label {
    type V = LabelView;

    open spec fn view(&self) -> LabelView {
        LabelView { name: self.name@, color: self.color@, selected: self.selected }
    }
}

impl DeepView for Label {
    type V = LabelView;

    open spec fn deep_view(&self) -> LabelView {
        self@
    }
}

impl Clone for Label {
    fn clone(&self) -> (r: Self)
        ensures
            r@ == self@,
    {
        Label { name: self.name.clone(), color: self.color.clone(), selected: self.selected }
    }
}

/// The labels of a pull request as the interface shows them, and the names of those whose
/// change is under way.
#[derive(Debug, PartialEq, Eq)]
pub struct Labels {
    pub items: Vec<Label>,
    pub loading: bool,
    pub catalogue_ready: bool,
    pub catalogue_error: Option<String>,
    pub pending: TextMap<()>,
    pub error: Option<String>,
}

/// The contents of [`Labels`].
#[verifier::ext_equal]
pub struct LabelsView {
    pub items: Seq<LabelView>,
    pub loading: bool,
    pub catalogue_ready: bool,
    pub catalogue_error: Option<Seq<char>>,
    pub pending: Set<Seq<char>>,
    pub error: Option<Seq<char>>,
}

impl LabelsView {
    /// Nothing is known.
    pub open spec fn blank() -> LabelsView {
        LabelsView {
            items: Seq::empty(),
            loading: false,
            catalogue_ready: false,
            catalogue_error: None,
            pending: Set::empty(),
            error: None,
        }
    }
}

impl View for Labels {
    type V = LabelsView;

    open spec fn view(&self) -> LabelsView {
        LabelsView {
            items: self.items.deep_view(),
            loading: self.loading,
            catalogue_ready: self.catalogue_ready,
            catalogue_error: self.catalogue_error.deep_view(),
            pending: self.pending@.dom(),
            error: self.error.deep_view(),
        }
    }
}

impl DeepView for Labels {
    type V = LabelsView;

    open spec fn deep_view(&self) -> LabelsView {
        self@
    }
}

impl Clone for Labels {
    fn clone(&self) -> (r: Self)
        ensures
            r@ == self@,
    {
        let r = Labels {
            items: self.items.clone(),
            loading: self.loading,
            catalogue_ready: self.catalogue_ready,
            catalogue_error: text::copy_option(&self.catalogue_error),
            pending: self.pending.copy(),
            error: text::copy_option(&self.error),
        };
        assert(r.items.deep_view() =~= self.items.deep_view());
        r
    }
}

impl Default for Labels {
    fn default() -> (r: Self)
        ensures
            r@ == LabelsView::blank(),
    {
        let r = Labels {
            items: Vec::new(),
            loading: false,
            catalogue_ready: false,
            catalogue_error: None,
            pending: TextMap::new(),
            error: None,
        };
        assert(r.items.deep_view() =~= Seq::empty());
        assert(r.pending@.dom() =~= Set::empty());
        r
    }
}

/// How far a merge has come.
#[derive(Debug, PartialEq, Eq)]
pub enum MergeProgress {
    Countdown(u8),
    Checking,
    Merging,
    Complete,
    Failed(String),
}

/// The contents of a [`MergeProgress`].
pub enum MergeProgressView {
    Countdown(u8),
    Checking,
    Merging,
    Complete,
    Failed(Seq<char>),
}

impl View for MergeProgress {
    type V = MergeProgressView;

    open spec fn view(&self) -> MergeProgressView {
        match self {
            MergeProgress::Countdown(seconds) => MergeProgressView::Countdown(*seconds),
            MergeProgress::Checking => MergeProgressView::Checking,
            MergeProgress::Merging => MergeProgressView::Merging,
            MergeProgress::Complete => MergeProgressView::Complete,
            MergeProgress::Failed(error) => MergeProgressView::Failed(error@),
        }
    }
}

impl DeepView for MergeProgress {
    type V = MergeProgressView;

    open spec fn deep_view(&self) -> MergeProgressView {
        self@
    }
}

impl Clone for MergeProgress {
    fn clone(&self) -> (r: Self)
        ensures
            r@ == self@,
    {
        match self {
            MergeProgress::Countdown(seconds) => MergeProgress::Countdown(*seconds),
            MergeProgress::Checking => MergeProgress::Checking,
            MergeProgress::Merging => MergeProgress::Merging,
            MergeProgress::Complete => MergeProgress::Complete,
            MergeProgress::Failed(error) => MergeProgress::Failed(error.clone()),
        }
    }
}

impl MergeProgressView {
    /// Whether a merge is under way.
    pub open spec fn is_busy(self) -> bool {
        self is Countdown || self is Checking || self is Merging
    }

    /// The text shown for a merge.
    pub open spec fn shown(self) -> Seq<char> {
        match self {
            MergeProgressView::Countdown(seconds) => "Cancel ("@ + text::decimal_of(seconds as nat) + "s)"@,
            MergeProgressView::Checking => "Checking merge…"@,
            MergeProgressView::Merging => "Merging…"@,
            MergeProgressView::Complete => "Merged"@,
            MergeProgressView::Failed(error) => error,
        }
    }
}

impl MergeProgress {
    /// The text shown for a merge.
    pub fn text(&self) -> (r: String)
        ensures
            r@ == self@.shown(),
    {
        match self {
            MergeProgress::Countdown(seconds) => text::concat3("Cancel (", &text::decimal(*seconds as u64), "s)"),
            MergeProgress::Checking => "Checking merge…".to_owned(),
            MergeProgress::Merging => "Merging…".to_owned(),
            MergeProgress::Complete => "Merged".to_owned(),
            MergeProgress::Failed(error) => error.clone(),
        }
    }

    /// Whether a merge is under way.
    pub fn busy(&self) -> (r: bool)
        ensures
            r == self@.is_busy(),
    {
        match self {
            MergeProgress::Countdown(_) | MergeProgress::Checking | MergeProgress::Merging => true,
            _ => false,
        }
    }
}

/// The state of actions that the interface shows.
#[derive(Debug, PartialEq, Eq)]
pub struct ActionState {
    pub preferences: TextMap<Preferences>,
    pub merges: TextMap<MergeProgress>,
    pub labels: TextMap<Labels>,
    pub error: Option<String>,
}

/// The contents of an [`ActionState`].
#[verifier::ext_equal]
pub struct ActionStateView {
    pub preferences: Map<Seq<char>, Preferences>,
    pub merges: Map<Seq<char>, MergeProgressView>,
    pub labels: Map<Seq<char>, LabelsView>,
    pub error: Option<Seq<char>>,
}

impl View for ActionState {
    type V = ActionStateView;

    open spec fn view(&self) -> ActionStateView {
        ActionStateView {
            preferences: self.preferences@,
            merges: self.merges@,
            labels: self.labels@,
            error: self.error.deep_view(),
        }
    }
}

impl DeepView for ActionState {
    type V = ActionStateView;

    open spec fn deep_view(&self) -> ActionStateView {
        self@
    }
}

impl ActionStateView {
    /// Nothing is known.
    pub open spec fn blank() -> ActionStateView {
        ActionStateView { preferences: Map::empty(), merges: Map::empty(), labels: Map::empty(), error: None }
    }

    /// The preferences of a repository, however its name is written.
    pub open spec fn preferences_of(self, repo: Seq<char>) -> Preferences {
        if self.preferences.contains_key(repo_key_of(repo)) {
            self.preferences[repo_key_of(repo)]
        } else {
            Preferences::initial()
        }
    }
}

impl Default for ActionState {
    fn default() -> (r: Self)
        ensures
            r@ == ActionStateView::blank(),
    {
        ActionState { preferences: TextMap::new(), merges: TextMap::new(), labels: TextMap::new(), error: None }
    }
}

/// The key of a repository: GitHub does not tell capitals from small letters in its name.
pub open spec fn repo_key_of(repo: Seq<char>) -> Seq<char> {
    text::ascii_lowercase(repo)
}

/// The key of a repository.
pub fn repo_key(repo: &str) -> (r: String)
    ensures
        r@ == repo_key_of(repo@),
{
    text::to_ascii_lowercase(repo)
}

impl ActionState {
    /// The preferences of a repository, however its name is written.
    pub fn preferences(&self, repo: &str) -> (r: Preferences)
        ensures
            r == self@.preferences_of(repo@),
    {
        match self.preferences.get(&repo_key(repo)) {
            Some(preferences) => *preferences,
            None => Preferences::default(),
        }
    }
}

/// The labels that a repository has, and when they were fetched.
#[derive(Debug)]
pub struct LabelCatalogue {
    pub labels: Vec<PrLabel>,
    pub fetched_at: i64,
}

/// The contents of a [`LabelCatalogue`].
#[verifier::ext_equal]
pub struct LabelCatalogueView {
    pub labels: Seq<PrLabelView>,
    pub fetched_at: i64,
}

impl View for LabelCatalogue {
    type V = LabelCatalogueView;

    open spec fn view(&self) -> LabelCatalogueView {
        LabelCatalogueView { labels: self.labels.deep_view(), fetched_at: self.fetched_at }
    }
}

impl DeepView for LabelCatalogue {
    type V = LabelCatalogueView;

    open spec fn deep_view(&self) -> LabelCatalogueView {
        self@
    }
}

impl Clone for LabelCatalogue {
    fn clone(&self) -> (r: Self)
        ensures
            r@ == self@,
    {
        let r = LabelCatalogue { labels: self.labels.clone(), fetched_at: self.fetched_at };
        assert(r.labels.deep_view() =~= self.labels.deep_view());
        r
    }
}

// ---------------------------------------------------------------- laws

/// Without a change of preferences no action may be performed.
pub proof fn actions_start_disabled(kind: Kind, pr: PullRequestView)
    ensures
        !Preferences::initial().allowed(kind, pr),
{
}

/// A change of one setting keeps the others: it touches the rule of its own action alone,
/// or only the method.
pub proof fn settings_are_independent(p: Preferences, kind: Kind, other: Kind, value: bool, condition: Condition)
    requires
        kind != other,
    ensures
        p.changed(Setting::Enabled(kind, value)).rule_of(other) == p.rule_of(other),
        p.changed(Setting::Condition(kind, condition)).rule_of(other) == p.rule_of(other),
        p.changed(Setting::Enabled(kind, value)).rule_of(kind) == (Rule { enabled: value, ..p.rule_of(kind) }),
        p.changed(Setting::Condition(kind, condition)).rule_of(kind) == (Rule { condition, ..p.rule_of(kind) }),
        p.changed(Setting::Enabled(kind, value)).merge_method == p.merge_method,
        p.changed(Setting::Condition(kind, condition)).merge_method == p.merge_method,
{
}

/// Drafts, pull requests in conflict, closed ones and stale evidence are never merged,
/// whatever the preferences say.
pub proof fn merges_need_sound_evidence(p: Preferences, pr: PullRequestView)
    requires
        pr.snapshot.draft || pr.snapshot.check_state == Some(CheckState::Conflicts) || !pr.snapshot.open || pr.stale,
    ensures
        !p.allowed(Kind::Merge, pr),
{
}

impl Duplicate for Preferences {
    fn duplicate(&self) -> (r: Preferences) {
        *self
    }
}

impl Duplicate for Labels {
    fn duplicate(&self) -> (r: Labels) {
        self.clone()
    }
}

impl Duplicate for MergeProgress {
    fn duplicate(&self) -> (r: MergeProgress) {
        self.clone()
    }
}

impl Duplicate for LabelCatalogue {
    fn duplicate(&self) -> (r: LabelCatalogue) {
        self.clone()
    }
}

impl Duplicate for Label {
    fn duplicate(&self) -> (r: Label) {
        self.clone()
    }
}

impl Comparable for Label {
    fn same(&self, other: &Label) -> (r: bool) {
        text::same(&self.name, &other.name) && text::same(&self.color, &other.color) && self.selected == other.selected
    }
}

impl Comparable for Labels {
    fn same(&self, other: &Labels) -> (r: bool) {
        let pending = text_map::same_list(&self.pending.key_list(), &other.pending.key_list());
        proof {
            self.pending.domain_is_finite();
            other.pending.domain_is_finite();
            text_map::sorted_keys_exist(self.pending@.dom());
            text_map::sorted_keys_exist(other.pending@.dom());
            if pending {
                assert(self.pending@.dom() =~= other.pending@.dom());
            }
        }
        let r = text_map::same_list(&self.items, &other.items) && self.loading == other.loading && self.catalogue_ready
            == other.catalogue_ready && text::same_option(&self.catalogue_error, &other.catalogue_error) && pending
            && text::same_option(&self.error, &other.error);
        assert(r ==> self@ =~= other@);
        r
    }
}

impl Clone for ActionState {
    fn clone(&self) -> (r: Self)
        ensures
            r@ == self@,
    {
        ActionState {
            preferences: self.preferences.copy(),
            merges: self.merges.copy(),
            labels: self.labels.copy(),
            error: text::copy_option(&self.error),
        }
    }
}

} // verus!
